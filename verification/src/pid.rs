//! The error-correcting controller used on both control axes.

use vstd::prelude::*;
use crate::units::{micro, milli, nano};

verus! {

/// No output of a controller is larger in magnitude, in billionths:
/// `2^95 + 2^64 + 2^63`.
pub const OUTPUT_LIMIT: i128 = 0x8000_0001_8000_0000_0000_0000;

/// The controller as a mathematical object, over the real numbers.
pub struct PidState {
    pub gain_p: real,
    pub gain_i: real,
    pub gain_d: real,
    /// The set point: the measurement to be held.
    pub center: real,
    /// The error of the measurement before, or the one it was seeded with.
    pub last_error: real,
    /// The sum of all errors so far.
    pub integral: real,
}

/// The least sum of errors that a controller can hold.
pub open spec fn integral_min() -> real {
    milli(i64::MIN as int)
}

/// The largest sum of errors that a controller can hold.
pub open spec fn integral_max() -> real {
    milli(i64::MAX as int)
}

impl PidState {
    /// How far `measurement` is from the set point.
    pub open spec fn error(self, measurement: real) -> real {
        measurement - self.center
    }

    /// The correction for `measurement`. The sum of errors already counts the
    /// new error; the rate of change is taken against the error before it.
    pub open spec fn output(self, measurement: real) -> real {
        let error = self.error(measurement);
        self.gain_p * error + self.gain_i * (self.integral + error) + self.gain_d * (
        self.last_error - error)
    }

    /// The state that taking in `measurement` leaves.
    pub open spec fn after_update(self, measurement: real) -> PidState {
        let error = self.error(measurement);
        PidState { last_error: error, integral: self.integral + error, ..self }
    }

    /// The state that remembers the error of `value` as if it had been
    /// measured, without counting it.
    pub open spec fn seeded(self, value: real) -> PidState {
        PidState { last_error: self.error(value), ..self }
    }

    /// The state with `error` as the remembered error.
    pub open spec fn seeded_error(self, error: real) -> PidState {
        PidState { last_error: error, ..self }
    }

    /// The state with nothing remembered and nothing summed.
    pub open spec fn cleared(self) -> PidState {
        PidState { last_error: 0real, integral: 0real, ..self }
    }

    /// Whether the sum of errors can still take the error of `measurement`.
    pub open spec fn accepts(self, measurement: real) -> bool {
        integral_min() <= self.integral + self.error(measurement) <= integral_max()
    }

    /// The state after taking in `measurements` one by one, first to last.
    pub open spec fn after_updates(self, measurements: Seq<real>) -> PidState
        decreases measurements.len(),
    {
        if measurements.len() == 0 {
            self
        } else {
            self.after_updates(measurements.drop_last()).after_update(measurements.last())
        }
    }

    /// The output of the call that takes in `measurements[i]`, after the
    /// measurements before it.
    pub open spec fn output_at(self, measurements: Seq<real>, i: int) -> real
        recommends
            0 <= i < measurements.len(),
    {
        self.after_updates(measurements.take(i)).output(measurements[i])
    }

    /// Updates change neither a gain nor the set point.
    pub proof fn lemma_updates_keep_settings(self, measurements: Seq<real>)
        ensures
            self.after_updates(measurements).gain_p == self.gain_p,
            self.after_updates(measurements).gain_i == self.gain_i,
            self.after_updates(measurements).gain_d == self.gain_d,
            self.after_updates(measurements).center == self.center,
        decreases measurements.len(),
    {
        if measurements.len() > 0 {
            self.lemma_updates_keep_settings(measurements.drop_last());
        }
    }

    /// After any run of updates the remembered error is that of the last
    /// measurement taken in.
    pub proof fn lemma_last_error_is_latest(self, measurements: Seq<real>)
        requires
            measurements.len() > 0,
        ensures
            self.after_updates(measurements).last_error == measurements.last() - self.center,
    {
        self.lemma_updates_keep_settings(measurements.drop_last());
    }

    /// The sum of errors grows by exactly the error of each measurement:
    /// nothing of it decays, and nothing is cut off.
    pub proof fn lemma_integral_accumulates(self, measurements: Seq<real>)
        requires
            measurements.len() > 0,
        ensures
            self.after_updates(measurements).integral == self.after_updates(
                measurements.drop_last(),
            ).integral + (measurements.last() - self.center),
    {
        self.lemma_updates_keep_settings(measurements.drop_last());
    }

    /// Seeding takes the jump out of the rate term: a controller that was
    /// seeded with a reading answers the same reading without a rate term.
    pub proof fn lemma_seed_silences_rate_term(self, value: real)
        ensures
            self.seeded(value).output(value) == self.gain_p * self.error(value) + self.gain_i * (
            self.integral + self.error(value)),
    {
        assert(self.gain_d * (self.error(value) - self.error(value)) == 0real)
            by (nonlinear_arith);
    }

    /// At rest on the set point, a controller without integral gain stays
    /// silent: with no remembered error and every measurement equal to the set
    /// point, every output is zero and the remembered error stays zero.
    pub proof fn lemma_steady_state_is_silent(self, measurements: Seq<real>, i: int)
        requires
            self.gain_i == 0real,
            self.last_error == 0real,
            forall|j: int| 0 <= j < measurements.len() ==> measurements[j] == self.center,
            0 <= i < measurements.len(),
        ensures
            self.output_at(measurements, i) == 0real,
            self.after_updates(measurements.take(i)).last_error == 0real,
            self.after_updates(measurements.take(i + 1)).last_error == 0real,
    {
        let before = measurements.take(i);
        let with = measurements.take(i + 1);
        self.lemma_updates_keep_settings(before);
        if i > 0 {
            self.lemma_last_error_is_latest(before);
        }
        self.lemma_last_error_is_latest(with);
        let state = self.after_updates(before);
        assert(state.gain_p * 0real == 0real) by (nonlinear_arith);
        assert(0real * (state.integral + 0real) == 0real) by (nonlinear_arith);
        assert(state.gain_d * 0real == 0real) by (nonlinear_arith);
    }
}

/// A controller. The set point and the two errors it holds are thousandths,
/// the gains millionths.
#[derive(Clone, Copy, Debug)]
pub struct PidController {
    /// The set point.
    pub center: i32,
    pub k_p: i32,
    pub k_i: i32,
    pub k_d: i32,
    /// The error of the measurement before.
    pub last_error: i64,
    /// The sum of all errors so far.
    pub integral: i64,
}

impl View for PidController {
    type V = PidState;

    open spec fn view(&self) -> PidState {
        PidState {
            gain_p: micro(self.k_p as int),
            gain_i: micro(self.k_i as int),
            gain_d: micro(self.k_d as int),
            center: milli(self.center as int),
            last_error: milli(self.last_error as int),
            integral: milli(self.integral as int),
        }
    }
}

proof fn lemma_product_within(a: int, b: int, a_max: int, b_max: int)
    by (nonlinear_arith)
    requires
        -a_max <= a <= a_max,
        -b_max <= b <= b_max,
    ensures
        -(a_max * b_max) <= a * b <= a_max * b_max,
{
}

proof fn lemma_limit_products()
    ensures
        0x8000_0000int * 0x1_0000_0000int == 0x8000_0000_0000_0000int,
        0x8000_0000int * 0x8000_0001_0000_0000int == 0x4000_0000_8000_0000_0000_0000int,
{
    assert(0x8000_0000int * 0x1_0000_0000int == 0x8000_0000_0000_0000int) by (nonlinear_arith);
    assert(0x8000_0000int * 0x8000_0001_0000_0000int == 0x4000_0000_8000_0000_0000_0000int)
        by (nonlinear_arith);
}

/// A gain times an error, both as they are held, is their product as it is
/// held.
proof fn lemma_held_product(gain: int, error: int)
    by (nonlinear_arith)
    ensures
        micro(gain) * milli(error) == nano(gain * error),
{
}

impl PidController {
    /// A controller that remembers nothing yet.
    pub fn new(k_p: i32, k_i: i32, k_d: i32, center: i32) -> (controller: PidController)
        ensures
            controller == (PidController { center, k_p, k_i, k_d, last_error: 0, integral: 0 }),
    {
        PidController { center, k_p, k_i, k_d, last_error: 0, integral: 0 }
    }

    /// Whether [`update`](Self::update) can take in `measurement`: whether the
    /// sum of errors stays within what the controller can hold.
    pub fn accepts(&self, measurement: i32) -> (ok: bool)
        ensures
            ok == self@.accepts(milli(measurement as int)),
    {
        let error: i64 = measurement as i64 - self.center as i64;
        self.integral.checked_add(error).is_some()
    }

    /// Takes in `measurement` and returns the correction, in billionths.
    pub fn update(&mut self, measurement: i32) -> (output: i128)
        requires
            old(self)@.accepts(milli(measurement as int)),
        ensures
            nano(output as int) == old(self)@.output(milli(measurement as int)),
            final(self)@ == old(self)@.after_update(milli(measurement as int)),
            -OUTPUT_LIMIT <= output <= OUTPUT_LIMIT,
    {
        let error: i64 = measurement as i64 - self.center as i64;
        let last_error: i64 = self.last_error;
        self.last_error = error;
        self.integral = self.integral + error;
        proof {
            lemma_product_within(self.k_p as int, error as int, 0x8000_0000, 0x1_0000_0000);
            lemma_product_within(
                self.k_i as int,
                self.integral as int,
                0x8000_0000,
                0x8000_0001_0000_0000,
            );
            lemma_product_within(
                self.k_d as int,
                last_error - error,
                0x8000_0000,
                0x8000_0001_0000_0000,
            );
            lemma_limit_products();
            lemma_held_product(self.k_p as int, error as int);
            lemma_held_product(self.k_i as int, self.integral as int);
            lemma_held_product(self.k_d as int, last_error - error);
        }
        let proportional: i128 = self.k_p as i128 * error as i128;
        let integral: i128 = self.k_i as i128 * self.integral as i128;
        let derivative: i128 = self.k_d as i128 * (last_error as i128 - error as i128);
        proportional + integral + derivative
    }

    /// Remembers the error of `value` as if it had just been measured, so that
    /// the next output has no jump in its rate term. The sum of errors stays.
    pub fn seed(&mut self, value: i32)
        ensures
            final(self)@ == old(self)@.seeded(milli(value as int)),
    {
        self.last_error = value as i64 - self.center as i64;
    }

    /// Remembers `error` itself as the last error. The sum of errors stays.
    pub fn seed_error(&mut self, error: i64)
        ensures
            final(self)@ == old(self)@.seeded_error(milli(error as int)),
    {
        self.last_error = error;
    }

    /// Forgets the remembered error and the sum of errors.
    pub fn clear(&mut self)
        ensures
            final(self)@ == old(self)@.cleared(),
    {
        self.last_error = 0;
        self.integral = 0;
    }
}

} // verus!
