//! From the two corrections to the two wheel speeds.
//!
//! A wheel's duty cycle is its speed rounded towards zero and then limited,
//! each wheel on its own: a wheel that is held at the limit does not slow the
//! other one down.

use vstd::prelude::*;
use crate::pid::OUTPUT_LIMIT;
use crate::units::{duty_for, milli, nano, product_duty};

verus! {

/// The share by which both wheels speed up, for an output of the distance
/// controller: the output over 100.
pub open spec fn speed_correction(output: real) -> real {
    output / 100real
}

/// The share by which the left wheel speeds up and the right one slows down,
/// for an output of the line controller: the output over 1000.
pub open spec fn line_correction(output: real) -> real {
    output / 1000real
}

/// The speed of the left wheel, in percent, for a base speed, the two
/// corrections and the pull of the turn.
pub open spec fn left_speed(
    base_speed: real,
    speed_correction: real,
    line_correction: real,
    spin: real,
) -> real {
    base_speed * (1real + speed_correction) * (1real + line_correction + spin)
}

/// The speed of the right wheel, in percent.
pub open spec fn right_speed(
    base_speed: real,
    speed_correction: real,
    line_correction: real,
    spin: real,
) -> real {
    base_speed * (1real + speed_correction) * (1real - line_correction - spin)
}

// A speed of the two above is a fraction of whole numbers: the base speed in
// thousandths times `10^11` billionths and the speed output, times the wheel's
// own factor, over `10^26` times the denominator of the spin.
proof fn lemma_shared_factor(base: int, speed: int)
    by (nonlinear_arith)
    ensures
        (base * (100_000_000_000 + speed)) as real == 100_000_000_000_000real * (milli(base) * (
        1real + speed_correction(nano(speed)))),
{
}

proof fn lemma_own_factor(line: int, num: int, den: int)
    by (nonlinear_arith)
    requires
        den > 0,
    ensures
        (den * (1_000_000_000_000 + line) + 1_000_000_000_000 * num) as real
            == 1_000_000_000_000real * (den as real) * (1real + line_correction(nano(line)) + num as real
            / den as real),
        (den * (1_000_000_000_000 - line) - 1_000_000_000_000 * num) as real
            == 1_000_000_000_000real * (den as real) * (1real - line_correction(nano(line)) - num as real
            / den as real),
{
}

proof fn lemma_fraction_of_factors(shared: int, own: int, den: int, s: real, w: real)
    by (nonlinear_arith)
    requires
        den > 0,
        shared as real == 100_000_000_000_000real * s,
        own as real == 1_000_000_000_000real * (den as real) * w,
    ensures
        (shared * own) as real / ((100_000_000_000_000_000_000_000_000 * den) as real) == s * w,
{
}

proof fn lemma_speeds_as_fractions(base: int, speed: int, line: int, num: int, den: int)
    requires
        den > 0,
    ensures
        ((base * (100_000_000_000 + speed)) * (den * (1_000_000_000_000 + line) + 1_000_000_000_000
            * num)) as real / ((100_000_000_000_000_000_000_000_000 * den) as real) == left_speed(
            milli(base),
            speed_correction(nano(speed)),
            line_correction(nano(line)),
            num as real / den as real,
        ),
        ((base * (100_000_000_000 + speed)) * (den * (1_000_000_000_000 - line) - 1_000_000_000_000
            * num)) as real / ((100_000_000_000_000_000_000_000_000 * den) as real) == right_speed(
            milli(base),
            speed_correction(nano(speed)),
            line_correction(nano(line)),
            num as real / den as real,
        ),
{
    let shared = base * (100_000_000_000 + speed);
    let s = milli(base) * (1real + speed_correction(nano(speed)));
    let spin = num as real / den as real;
    lemma_shared_factor(base, speed);
    lemma_own_factor(line, num, den);
    lemma_fraction_of_factors(
        shared,
        den * (1_000_000_000_000 + line) + 1_000_000_000_000 * num,
        den,
        s,
        1real + line_correction(nano(line)) + spin,
    );
    lemma_fraction_of_factors(
        shared,
        den * (1_000_000_000_000 - line) - 1_000_000_000_000 * num,
        den,
        s,
        1real - line_correction(nano(line)) - spin,
    );
}

proof fn lemma_factor_bounds(base_speed: int, output: int, den: int, num: int)
    by (nonlinear_arith)
    requires
        -0x8000_0000 <= base_speed <= 0x8000_0000,
        -0x8000_0001_8000_0000_0000_0000 <= output <= 0x8000_0001_8000_0000_0000_0000,
        0 < den <= 0x8000_0000,
        -0x8000_0000 <= num <= 0x8000_0000,
    ensures
        -0x4000_0000_c000_0100_0000_0000_0000_0000 <= base_speed * (100_000_000_000 + output)
            <= 0x4000_0000_c000_0100_0000_0000_0000_0000,
        -0x4000_0000_c000_1000_0000_0000_0000_0000 <= den * (1_000_000_000_000 + output)
            <= 0x4000_0000_c000_1000_0000_0000_0000_0000,
        -0x4000_0000_c000_1000_0000_0000_0000_0000 <= den * (1_000_000_000_000 - output)
            <= 0x4000_0000_c000_1000_0000_0000_0000_0000,
        -0x1000_0000_0000_0000_0000 <= 1_000_000_000_000 * num <= 0x1000_0000_0000_0000_0000,
        0 < 100_000_000_000_000_000_000_000_000 * den
            <= 100_000_000_000_000_000_000_000_000 * 0x8000_0000,
{
}

/// The two duty cycles, left and right, for a base speed in thousandths of a
/// percent, the two controllers' outputs in billionths, and the pull of the
/// turn as the fraction `spin_num / spin_den`.
pub fn wheel_duties(
    base_speed: i32,
    speed_output: i128,
    line_output: i128,
    spin_num: i64,
    spin_den: i64,
) -> (duties: (i32, i32))
    requires
        -OUTPUT_LIMIT <= speed_output <= OUTPUT_LIMIT,
        -OUTPUT_LIMIT <= line_output <= OUTPUT_LIMIT,
        -0x8000_0000 <= spin_num <= 0x8000_0000,
        0 < spin_den <= 0x8000_0000,
    ensures
        duties.0 == duty_for(
            left_speed(
                milli(base_speed as int),
                speed_correction(nano(speed_output as int)),
                line_correction(nano(line_output as int)),
                spin_num as real / spin_den as real,
            ),
        ),
        duties.1 == duty_for(
            right_speed(
                milli(base_speed as int),
                speed_correction(nano(speed_output as int)),
                line_correction(nano(line_output as int)),
                spin_num as real / spin_den as real,
            ),
        ),
{
    proof {
        lemma_factor_bounds(base_speed as int, speed_output as int, spin_den as int, spin_num as int);
        lemma_factor_bounds(base_speed as int, line_output as int, spin_den as int, spin_num as int);
        lemma_speeds_as_fractions(
            base_speed as int,
            speed_output as int,
            line_output as int,
            spin_num as int,
            spin_den as int,
        );
    }
    let shared: i128 = base_speed as i128 * (100_000_000_000 + speed_output);
    let pull: i128 = 1_000_000_000_000 * spin_num as i128;
    let left: i128 = spin_den as i128 * (1_000_000_000_000 + line_output) + pull;
    let right: i128 = spin_den as i128 * (1_000_000_000_000 - line_output) - pull;
    let divisor: i128 = 100_000_000_000_000_000_000_000_000 * spin_den as i128;
    (product_duty(shared, left, divisor), product_duty(shared, right, divisor))
}

} // verus!
