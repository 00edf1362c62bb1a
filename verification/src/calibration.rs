//! Temperature calibration of the speed of sound and of the echo timeout.
//!
//! All quantities are fixed-point integers: temperatures in milli-degrees
//! Celsius, speeds in micrometers per second, times in nanoseconds. At this
//! resolution the linear speed-of-sound model is exact: one milli-degree
//! Celsius adds exactly 606 micrometers per second.

use vstd::prelude::*;

verus! {

/// Numerator of the echo-timeout computation: the rated maximum range of
/// the sensor (4 m) expressed in micrometer-nanoseconds per second, so that
/// dividing by a speed in micrometers per second yields nanoseconds.
pub const MAX_RANGE_UM_NS_PER_S: u64 = 4_000_000 * 1_000_000_000;

/// Coldest ambient temperature the calibration model accepts, in milli-degrees Celsius.
pub const TEMP_MIN_MILLI_C: i64 = -50_000;

/// Warmest ambient temperature the calibration model accepts, in milli-degrees Celsius.
pub const TEMP_MAX_MILLI_C: i64 = 100_000;

/// Ambient temperature assumed when none is supplied: 20 C, in milli-degrees Celsius.
pub const DEFAULT_TEMP_MILLI_C: i64 = 20_000;

/// Slowest speed of sound within the accepted temperature range, in micrometers per second.
pub const SPEED_MIN_UM_S: u64 = 331_300_000 - 606 * 50_000;

/// Fastest speed of sound within the accepted temperature range, in micrometers per second.
pub const SPEED_MAX_UM_S: u64 = 331_300_000 + 606 * 100_000;

/// An ambient temperature the calibration model is defined on, in milli-degrees Celsius.
pub open spec fn valid_temp_milli_c(t: int) -> bool {
    TEMP_MIN_MILLI_C <= t <= TEMP_MAX_MILLI_C
}

/// Speed of sound at ambient temperature `t` milli-degrees Celsius, in
/// micrometers per second: 331.3 m/s in air at 0 C, rising by 0.606 m/s per
/// degree — at this resolution, by exactly 606 um/s per milli-degree.
pub open spec fn sound_speed_um_s(t: int) -> int {
    331_300_000 + 606 * t
}

/// Longest sensible wait for the falling echo edge at the given speed of
/// sound: the time in which the slowest admissible wave covers the maximum
/// rated range, in nanoseconds.
pub open spec fn echo_timeout_ns(speed_um_s: int) -> int
    recommends
        speed_um_s > 0,
{
    MAX_RANGE_UM_NS_PER_S as int / speed_um_s
}

/// The speed of sound within the accepted temperature range stays within
/// the two speed bounds.
pub proof fn lemma_speed_bounds(t: int)
    requires
        valid_temp_milli_c(t),
    ensures
        SPEED_MIN_UM_S <= sound_speed_um_s(t) <= SPEED_MAX_UM_S,
{
}

/// The echo timeout shrinks strictly as the speed of sound grows: calibrating
/// at a warmer temperature yields a faster speed of sound, and with it a
/// strictly shorter wait for the maximum-range round trip.
pub proof fn lemma_timeout_strictly_decreasing(t1: int, t2: int)
    requires
        valid_temp_milli_c(t1),
        valid_temp_milli_c(t2),
        t1 < t2,
    ensures
        sound_speed_um_s(t1) < sound_speed_um_s(t2),
        echo_timeout_ns(sound_speed_um_s(t2)) < echo_timeout_ns(sound_speed_um_s(t1)),
{
    let n = MAX_RANGE_UM_NS_PER_S as int;
    let s1 = sound_speed_um_s(t1);
    let s2 = sound_speed_um_s(t2);
    let q1 = n / s1;
    let q2 = n / s2;
    lemma_speed_bounds(t1);
    lemma_speed_bounds(t2);
    // A lower bound on the coarser quotient: even at the fastest admissible
    // speed the maximum-range round trip takes over ten million nanoseconds.
    broadcast use vstd::arithmetic::div_mod::lemma_div_is_ordered_by_denominator;

    assert(n / s2 >= n / (SPEED_MAX_UM_S as int));
    assert(10_206_685 * (SPEED_MAX_UM_S as int) + 148_500_000 == n) by {
        assert(SPEED_MAX_UM_S == 391_900_000);
        assert(10_206_685int * 391_900_000int == 3_999_999_851_500_000int) by (nonlinear_arith);
    }
    vstd::arithmetic::div_mod::lemma_fundamental_div_mod_converse_div(
        n,
        SPEED_MAX_UM_S as int,
        10_206_685,
        148_500_000,
    );
    assert(n / (SPEED_MAX_UM_S as int) == 10_206_685);
    vstd::arithmetic::div_mod::lemma_fundamental_div_mod(n, s2);
    vstd::arithmetic::div_mod::lemma_fundamental_div_mod(n, s1);
    let r2 = n % s2;
    let r1 = n % s1;
    vstd::arithmetic::div_mod::lemma_mod_division_less_than_divisor(n, s2);
    vstd::arithmetic::div_mod::lemma_mod_division_less_than_divisor(n, s1);
    // One full extra multiple of the slower speed still fits below the
    // numerator, so the finer quotient exceeds the coarser one.
    assert((q2 + 1) * s1 <= n) by (nonlinear_arith)
        requires
            s1 + 606 <= s2,
            n == q2 * s2 + r2,
            0 <= r2,
            q2 >= 10_206_685,
            0 < s1 <= 391_900_000,
    ;
    assert(q1 > q2) by (nonlinear_arith)
        requires
            (q2 + 1) * s1 <= n,
            n == q1 * s1 + r1,
            0 <= r1 < s1,
            0 < s1,
    ;
}

} // verus!
