//! Conversion of an echo round-trip time into a distance.
//!
//! The product of a speed in micrometers per second and an elapsed time in
//! nanoseconds is a round-trip distance in femtometers; half of it is the
//! one-way distance. Reported distances are fixed-point integers in
//! millionths of the requested unit, obtained from the femtometer count by a
//! single truncating division.

use vstd::prelude::*;
use crate::calibration::{
    sound_speed_um_s, valid_temp_milli_c, SPEED_MAX_UM_S, SPEED_MIN_UM_S,
};
use crate::Unit;

verus! {

/// Longest elapsed time a reading is computed from, in nanoseconds. A falling
/// edge this late is far beyond the rated range, so anything later is
/// reported as out of range.
pub const MAX_ELAPSED_NS: u64 = 1_000_000_000;

/// One-way distance covered in `elapsed_ns` nanoseconds at `speed_um_s`
/// micrometers per second, in femtometers: half the round trip.
pub open spec fn one_way_fm(speed_um_s: int, elapsed_ns: int) -> int {
    speed_um_s * elapsed_ns / 2
}

/// Femtometers in one millionth of the given unit.
pub open spec fn unit_divisor_fm(unit: Unit) -> int {
    match unit {
        Unit::Millimeters => 1_000_000,
        Unit::Centimeters => 10_000_000,
        Unit::Decimeters => 100_000_000,
        Unit::Meters => 1_000_000_000,
    }
}

/// The reported reading: the one-way distance in millionths of the requested
/// unit, rounded toward zero.
pub open spec fn micro_units_of(speed_um_s: int, elapsed_ns: int, unit: Unit) -> int {
    one_way_fm(speed_um_s, elapsed_ns) / unit_divisor_fm(unit)
}

/// Halving the round-trip time loses nothing: every calibrated speed of
/// sound is even, so twice the one-way femtometer distance is exactly the
/// speed times the elapsed time.
pub proof fn lemma_one_way_exact(t: int, elapsed_ns: int)
    requires
        valid_temp_milli_c(t),
        0 <= elapsed_ns,
    ensures
        2 * one_way_fm(sound_speed_um_s(t), elapsed_ns) == sound_speed_um_s(t) * elapsed_ns,
{
    let s = sound_speed_um_s(t);
    let h = 165_650_000 + 303 * t;
    assert(s == 2 * h);
    assert(s * elapsed_ns == 2 * (h * elapsed_ns)) by (nonlinear_arith)
        requires
            s == 2 * h,
    ;
    vstd::arithmetic::div_mod::lemma_div_multiples_vanish(h * elapsed_ns, 2);
}

/// Unit conversion is linear and consistent: for one physical event, the
/// millimeter, centimeter and decimeter readings equal the meter reading
/// scaled by 1000, 100 and 10, up to the truncation of at most one millionth
/// of the coarser unit.
pub proof fn lemma_unit_conversion_consistent(speed_um_s: int, elapsed_ns: int)
    requires
        0 <= speed_um_s,
        0 <= elapsed_ns,
    ensures
        ({
            let m = micro_units_of(speed_um_s, elapsed_ns, Unit::Meters);
            &&& 1000 * m <= micro_units_of(speed_um_s, elapsed_ns, Unit::Millimeters) < 1000 * m
                + 1000
            &&& 100 * m <= micro_units_of(speed_um_s, elapsed_ns, Unit::Centimeters) < 100 * m
                + 100
            &&& 10 * m <= micro_units_of(speed_um_s, elapsed_ns, Unit::Decimeters) < 10 * m + 10
        }),
{
    vstd::arithmetic::mul::lemma_mul_nonnegative(speed_um_s, elapsed_ns);
    let d = one_way_fm(speed_um_s, elapsed_ns);
    assert(0 <= d) by {
        vstd::arithmetic::div_mod::lemma_div_pos_is_pos(speed_um_s * elapsed_ns, 2);
    }
    let mm = d / 1_000_000;
    let cm = d / 10_000_000;
    let dm = d / 100_000_000;
    let m = d / 1_000_000_000;
    vstd::arithmetic::div_mod::lemma_div_denominator(d, 1_000_000, 1000);
    vstd::arithmetic::div_mod::lemma_div_denominator(d, 10_000_000, 100);
    vstd::arithmetic::div_mod::lemma_div_denominator(d, 100_000_000, 10);
    assert(m == mm / 1000 && m == cm / 100 && m == dm / 10);
    vstd::arithmetic::div_mod::lemma_fundamental_div_mod(mm, 1000);
    vstd::arithmetic::div_mod::lemma_mod_division_less_than_divisor(mm, 1000);
    vstd::arithmetic::div_mod::lemma_fundamental_div_mod(cm, 100);
    vstd::arithmetic::div_mod::lemma_mod_division_less_than_divisor(cm, 100);
    vstd::arithmetic::div_mod::lemma_fundamental_div_mod(dm, 10);
    vstd::arithmetic::div_mod::lemma_mod_division_less_than_divisor(dm, 10);
}

/// Compute the distance reading for a falling edge observed `elapsed_ns`
/// nanoseconds after the rising edge, in millionths of the requested unit.
pub fn distance_in_unit(sound_speed: u64, elapsed_ns: u64, unit: Unit) -> (d: u64)
    requires
        SPEED_MIN_UM_S <= sound_speed <= SPEED_MAX_UM_S,
        elapsed_ns <= MAX_ELAPSED_NS,
    ensures
        d == micro_units_of(sound_speed as int, elapsed_ns as int, unit),
{
    proof {
        assert(sound_speed * elapsed_ns <= 391_900_000 * 1_000_000_000) by (nonlinear_arith)
            requires
                0 <= sound_speed <= 391_900_000,
                0 <= elapsed_ns <= 1_000_000_000,
        ;
    }
    let round_trip_fm: u64 = sound_speed * elapsed_ns;
    let one_way: u64 = round_trip_fm / 2;
    let divisor: u64 = match unit {
        Unit::Millimeters => 1_000_000,
        Unit::Centimeters => 10_000_000,
        Unit::Decimeters => 100_000_000,
        Unit::Meters => 1_000_000_000,
    };
    one_way / divisor
}

/// Turn the outcome of the bounded wait for the falling echo edge into a
/// reading. `edge` is what the wait observed: the new line level when an edge
/// arrived in time, nothing when the wait timed out. Only a falling edge
/// (`Some(false)`) within the elapsed-time cap yields a distance; a timeout
/// or a spurious rising edge is the out-of-range outcome, never an error.
pub fn reading_from_echo(sound_speed: u64, edge: Option<bool>, elapsed_ns: u64, unit: Unit) -> (r:
    Option<u64>)
    requires
        SPEED_MIN_UM_S <= sound_speed <= SPEED_MAX_UM_S,
    ensures
        edge == Some(false) && elapsed_ns <= MAX_ELAPSED_NS ==> (r matches Some(d) && d
            == micro_units_of(sound_speed as int, elapsed_ns as int, unit)),
        edge != Some(false) ==> r is None,
        elapsed_ns > MAX_ELAPSED_NS ==> r is None,
{
    match edge {
        Some(false) => {
            if elapsed_ns <= MAX_ELAPSED_NS {
                Some(distance_in_unit(sound_speed, elapsed_ns, unit))
            } else {
                None
            }
        },
        _ => None,
    }
}

} // verus!
