//! The proportional-integral-derivative actuation law.
//!
//! Temperatures and variances are in sixteenths of a degree Celsius, so
//! with gains Kp, Ki = 1/[`KI_RECIP`] and Kd the real-valued output
//!
//! ```text
//! out = Kp * v/16 + Ki * i/16 + Kd * ((v - lv)/16) / e
//! ```
//!
//! (v = variance, lv = previous variance, i = integral accumulator in
//! sixteenth-degree-seconds, e = elapsed seconds) equals the exact rational
//!
//! ```text
//! out = (e * (KP * KI_RECIP * v + i) + KD * KI_RECIP * (v - lv)) / (16 * KI_RECIP * e)
//! ```
//!
//! which this module evaluates in exact integer arithmetic, rounds to the
//! nearest whole second of actuation (half away from zero) and clamps to
//! the `i32` range.  A positive output drives heating, a negative one
//! cooling.

use vstd::prelude::*;

verus! {

/// Proportional gain: basic steering, the first gain to tune.
pub const KP: i64 = 10;

/// Derivative gain: compensates overshoot, the last gain to tune.
pub const KD: i64 = 150;

/// Reciprocal of the integral gain Ki = 0.01, which compensates heat loss
/// by the vessel.
pub const KI_RECIP: i64 = 100;

/// Magnitude at which the integral accumulator saturates
/// (sixteenth-degree-seconds).  The accumulator is otherwise unbounded by
/// design; saturating at 2^62 keeps every intermediate product of the
/// output formula inside 128-bit arithmetic.
pub const INTEGRAL_LIMIT: i64 = 0x4000_0000_0000_0000;

/// Largest variance magnitude the control state can hold: the highest
/// selectable target minus the lowest 16-bit raw reading, in sixteenths
/// (27 * 16 + 2^15).
pub const VARIANCE_BOUND: i32 = 33200;

/// `x` forced into `[lo, hi]`.
pub open spec fn clamp_spec(x: int, lo: int, hi: int) -> int {
    if x < lo {
        lo
    } else if x > hi {
        hi
    } else {
        x
    }
}

/// `n / d` rounded to the nearest integer, half away from zero, for an
/// even positive `d`.
pub open spec fn round_div(n: int, d: int) -> int
    recommends
        d > 0,
        d % 2 == 0,
{
    if n >= 0 {
        (n + d / 2) / d
    } else {
        -(((-n) + d / 2) / d)
    }
}

/// The integral accumulator after `elapsed` seconds at variance `v`.
pub open spec fn integral_next(integral: int, elapsed: int, v: int) -> int {
    clamp_spec(integral + elapsed * v, -(INTEGRAL_LIMIT as int), INTEGRAL_LIMIT as int)
}

/// Numerator of the exact output rational (see the module note).
pub open spec fn pid_numer(v: int, lv: int, integral: int, elapsed: int) -> int {
    elapsed * (KP * KI_RECIP * v + integral) + KD * KI_RECIP * (v - lv)
}

/// Denominator of the exact output rational.
pub open spec fn pid_denom(elapsed: int) -> int {
    16 * KI_RECIP * elapsed
}

/// Whole seconds of actuation: the output rational rounded half away from
/// zero and clamped to the `i32` range.
pub open spec fn pid_output(v: int, lv: int, integral: int, elapsed: int) -> int {
    clamp_spec(
        round_div(pid_numer(v, lv, integral, elapsed), pid_denom(elapsed)),
        i32::MIN as int,
        i32::MAX as int,
    )
}

/// `a * b` stays within `amax * bmag` when `0 <= a <= amax` and
/// `|b| <= bmag`.
proof fn lemma_mul_magnitude(a: int, b: int, amax: int, bmag: int)
    by (nonlinear_arith)
    requires
        0 <= a <= amax,
        -bmag <= b <= bmag,
        0 <= bmag,
    ensures
        -(amax * bmag) <= a * b <= amax * bmag,
{
}

/// Advances the integral accumulator by `elapsed` seconds at variance `v`,
/// saturating at [`INTEGRAL_LIMIT`].
pub fn next_integral(integral: i64, elapsed: u64, v: i32) -> (r: i64)
    requires
        -INTEGRAL_LIMIT <= integral <= INTEGRAL_LIMIT,
        -VARIANCE_BOUND <= v <= VARIANCE_BOUND,
    ensures
        r as int == integral_next(integral as int, elapsed as int, v as int),
{
    proof {
        lemma_mul_magnitude(elapsed as int, v as int, u64::MAX as int, VARIANCE_BOUND as int);
    }
    let product: i128 = (elapsed as i128) * (v as i128);
    let sum: i128 = (integral as i128) + product;
    if sum > INTEGRAL_LIMIT as i128 {
        INTEGRAL_LIMIT
    } else if sum < -(INTEGRAL_LIMIT as i128) {
        -INTEGRAL_LIMIT
    } else {
        sum as i64
    }
}

/// Computes the whole seconds of actuation for one PID step.
///
/// `v` is the current variance (target minus current temperature), `lv`
/// the variance recorded at the previous successful reading, `integral`
/// the accumulator after [`next_integral`], and `elapsed` the seconds
/// since the previous reading.  A positive result drives heating, a
/// negative one cooling, zero leaves the actuators as they are.
pub fn pid_actuation(v: i32, lv: i32, integral: i64, elapsed: u64) -> (r: i32)
    requires
        elapsed >= 1,
        -VARIANCE_BOUND <= v <= VARIANCE_BOUND,
        -VARIANCE_BOUND <= lv <= VARIANCE_BOUND,
        -INTEGRAL_LIMIT <= integral <= INTEGRAL_LIMIT,
    ensures
        r as int == pid_output(v as int, lv as int, integral as int, elapsed as int),
{
    // 1000 = KP * KI_RECIP, 15000 = KD * KI_RECIP, 1600 = 16 * KI_RECIP
    let scaled_p: i128 = 1000 * (v as i128) + (integral as i128);
    proof {
        assert(KP * KI_RECIP == 1000 && KD * KI_RECIP == 15000 && 16 * KI_RECIP == 1600);
        lemma_mul_magnitude(
            elapsed as int,
            scaled_p as int,
            u64::MAX as int,
            INTEGRAL_LIMIT as int + 1000 * VARIANCE_BOUND as int,
        );
    }
    let numer: i128 = (elapsed as i128) * scaled_p + 15000 * ((v as i128) - (lv as i128));
    let denom: u128 = 1600 * (elapsed as u128);
    let negative: bool = numer < 0;
    let magnitude: u128 = if negative {
        (-numer) as u128
    } else {
        numer as u128
    };
    let rounded: u128 = (magnitude + denom / 2) / denom;
    if negative {
        if rounded >= 0x8000_0000 {
            i32::MIN
        } else {
            -(rounded as i32)
        }
    } else {
        if rounded >= 0x8000_0000 {
            i32::MAX
        } else {
            rounded as i32
        }
    }
}

} // verus!
