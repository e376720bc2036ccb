//! How real quantities are held, and how a speed becomes a duty cycle.
//!
//! A reading, a set point, a speed or a length is held as a whole number of
//! thousandths, a gain as a whole number of millionths, and a controller's
//! output, the product of the two, as a whole number of billionths. What is
//! computed on these numbers is exact: contracts speak of the real numbers
//! that they stand for.

use vstd::prelude::*;
use vstd::arithmetic::div_mod::{
    lemma_div_is_ordered, lemma_div_multiples_vanish, lemma_fundamental_div_mod, lemma_mod_bound,
};

verus! {

/// Thousandths in one unit.
pub const MILLI: i32 = 1000;

/// Millionths in one unit.
pub const MICRO: i32 = 1_000_000;

/// Largest magnitude of a duty cycle, in percent.
pub const DUTY_LIMIT: i32 = 100;

/// The number that `x` thousandths stand for.
pub open spec fn milli(x: int) -> real {
    x as real / 1000real
}

/// The number that `x` millionths stand for.
pub open spec fn micro(x: int) -> real {
    x as real / 1_000_000real
}

/// The number that `x` billionths stand for.
pub open spec fn nano(x: int) -> real {
    x as real / 1_000_000_000real
}

/// The number that a reading in thousandths stands for, where there is one.
pub open spec fn reading(value: Option<i32>) -> Option<real> {
    match value {
        Some(x) => Some(milli(x as int)),
        None => None,
    }
}

/// `x` rounded to a whole number towards zero.
pub open spec fn toward_zero(x: real) -> int {
    if x >= 0real {
        x.floor()
    } else {
        -((-x).floor())
    }
}

/// `v` limited to the duty cycles a motor accepts.
pub open spec fn clamp_duty(v: int) -> int {
    if v > DUTY_LIMIT {
        DUTY_LIMIT as int
    } else if v < -DUTY_LIMIT {
        -DUTY_LIMIT
    } else {
        v
    }
}

/// The duty cycle, in whole percent, commanded for a speed in percent: the
/// speed rounded towards zero, then limited to the motor's range.
pub open spec fn duty_for(speed: real) -> int {
    clamp_duty(toward_zero(speed))
}

/// A duty cycle never leaves the motor's range, and a speed within the range
/// is only rounded.
pub proof fn lemma_duty_within_limit(speed: real)
    ensures
        -DUTY_LIMIT <= duty_for(speed) <= DUTY_LIMIT,
        -(DUTY_LIMIT as real) <= speed <= DUTY_LIMIT as real ==> duty_for(speed) == toward_zero(
            speed,
        ),
{
}

/// The quotient of two whole numbers rounded towards zero.
spec fn trunc_div(n: int, d: int) -> int {
    if n >= 0 {
        n / d
    } else {
        -((-n) / d)
    }
}

proof fn lemma_floor_of_ratio(n: int, d: int)
    requires
        d > 0,
    ensures
        (n as real / d as real).floor() == n / d,
{
    let q = n / d;
    let r = n % d;
    lemma_fundamental_div_mod(n, d);
    lemma_mod_bound(n, d);
    let x = n as real / d as real;
    assert(q as real <= x < (q + 1) as real) by (nonlinear_arith)
        requires
            n == d * q + r,
            0 <= r < d,
            x == n as real / d as real,
    ;
}

proof fn lemma_toward_zero_of_ratio(n: int, d: int)
    requires
        d > 0,
    ensures
        toward_zero(n as real / d as real) == trunc_div(n, d),
{
    lemma_floor_of_ratio(n, d);
    lemma_floor_of_ratio(-n, d);
    assert(-(n as real / d as real) == (-n) as real / d as real) by (nonlinear_arith)
        requires
            d > 0,
    ;
    assert((n >= 0) == (n as real / d as real >= 0real)) by (nonlinear_arith)
        requires
            d > 0,
    ;
}

/// The duty cycle for a speed given in thousandths of a percent.
pub fn duty_cycle(speed: i32) -> (duty: i32)
    ensures
        duty == duty_for(milli(speed as int)),
{
    proof {
        lemma_toward_zero_of_ratio(speed as int, 1000);
    }
    let whole: i32 = speed / MILLI;
    if whole > DUTY_LIMIT {
        DUTY_LIMIT
    } else if whole < -DUTY_LIMIT {
        -DUTY_LIMIT
    } else {
        whole
    }
}

/// The magnitude of `x`.
spec fn magnitude(x: int) -> int {
    if x >= 0 {
        x
    } else {
        -x
    }
}

fn magnitude_of(x: i128) -> (m: u128)
    ensures
        m == magnitude(x as int),
{
    if x >= 0 {
        x as u128
    } else {
        let below: i128 = -(x + 1);
        below as u128 + 1
    }
}

proof fn lemma_product_sign(x: int, y: int)
    ensures
        (x >= 0) == (y >= 0) ==> x * y == magnitude(x) * magnitude(y),
        (x >= 0) != (y >= 0) ==> x * y == -(magnitude(x) * magnitude(y)),
{
    assert((-x) * y == -(x * y)) by (nonlinear_arith);
    assert(x * (-y) == -(x * y)) by (nonlinear_arith);
    assert((-x) * (-y) == x * y) by (nonlinear_arith);
}

/// For a positive `b`, a product `a * b` stays within `t` exactly where `a`
/// stays within the quotient `t / b`.
pub(crate) proof fn lemma_product_against_quotient(a: int, b: int, t: int)
    requires
        b >= 1,
        t >= 0,
    ensures
        a <= t / b <==> a * b <= t,
{
    let k = t / b;
    lemma_fundamental_div_mod(t, b);
    lemma_mod_bound(t, b);
    if a > k {
        assert(a * b >= (k + 1) * b) by (nonlinear_arith)
            requires
                a >= k + 1,
                b >= 1,
        ;
        assert((k + 1) * b == b * k + b) by (nonlinear_arith);
    } else {
        assert(a * b <= k * b) by (nonlinear_arith)
            requires
                a <= k,
                b >= 1,
        ;
        assert(k * b == b * k) by (nonlinear_arith);
    }
}

/// The duty cycle for the speed `x * y / d` percent, for factors of any size:
/// the product is formed only where it is below the motor's limit.
pub fn product_duty(x: i128, y: i128, d: i128) -> (duty: i32)
    requires
        d > 0,
        DUTY_LIMIT * d <= i128::MAX,
    ensures
        duty == duty_for((x * y) as real / d as real),
{
    proof {
        lemma_product_sign(x as int, y as int);
        lemma_toward_zero_of_ratio(x * y, d as int);
    }
    if x == 0 || y == 0 {
        proof {
            assert(x * y == 0) by (nonlinear_arith)
                requires
                    x == 0 || y == 0,
            ;
            assert(0int / (d as int) == 0) by (nonlinear_arith)
                requires
                    d > 0,
            ;
        }
        return 0;
    }
    let positive: bool = (x > 0) == (y > 0);
    let a: u128 = magnitude_of(x);
    let b: u128 = magnitude_of(y);
    let limit: u128 = (DUTY_LIMIT as u128) * (d as u128);
    let room: u128 = (limit - 1) / b;
    proof {
        lemma_product_against_quotient(a as int, b as int, limit - 1);
        lemma_div_multiples_vanish(DUTY_LIMIT as int, d as int);
    }
    let whole: i32 = if a > room {
        proof {
            lemma_div_is_ordered(limit as int, a * b, d as int);
        }
        DUTY_LIMIT
    } else {
        let product: u128 = a * b;
        proof {
            lemma_div_is_ordered(product as int, limit - 1, d as int);
            lemma_fundamental_div_mod(limit - 1, d as int);
            lemma_mod_bound(limit - 1, d as int);
            assert((limit - 1) / (d as int) < DUTY_LIMIT) by (nonlinear_arith)
                requires
                    limit == DUTY_LIMIT * d,
                    d > 0,
                    limit - 1 == d * ((limit - 1) / (d as int)) + (limit - 1) % (d as int),
                    0 <= (limit - 1) % (d as int) < d,
            ;
        }
        (product / (d as u128)) as i32
    };
    if positive {
        whole
    } else {
        -whole
    }
}

} // verus!
