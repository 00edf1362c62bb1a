//! Distance readings from elapsed echo times, in millionths of the
//! requested unit.

use hc_sr04::distance::{distance_in_unit, reading_from_echo};
use hc_sr04::Unit;

// Speed of sound at the default 20.0 C calibration, micrometers per second.
const SPEED_20C: u64 = 343_420_000;

#[test]
fn five_ms_round_trip_reading() {
    // A 5.0 ms round trip at 343.42 m/s is 0.85855 m one way.
    assert_eq!(distance_in_unit(SPEED_20C, 5_000_000, Unit::Meters), 858_550);
    assert_eq!(distance_in_unit(SPEED_20C, 5_000_000, Unit::Decimeters), 8_585_500);
    assert_eq!(distance_in_unit(SPEED_20C, 5_000_000, Unit::Centimeters), 85_855_000);
    assert_eq!(distance_in_unit(SPEED_20C, 5_000_000, Unit::Millimeters), 858_550_000);
}

#[test]
fn unit_conversions_scale_linearly() {
    let meters = distance_in_unit(SPEED_20C, 5_000_000, Unit::Meters);
    assert_eq!(distance_in_unit(SPEED_20C, 5_000_000, Unit::Decimeters), meters * 10);
    assert_eq!(distance_in_unit(SPEED_20C, 5_000_000, Unit::Centimeters), meters * 100);
    assert_eq!(distance_in_unit(SPEED_20C, 5_000_000, Unit::Millimeters), meters * 1000);
}

#[test]
fn unit_conversions_agree_within_truncation() {
    // One nanosecond of echo: 171,710 femtometers one way. Whole millionths
    // of a meter: none; of a millimeter: 171. The readings agree to within
    // one millionth of the coarser unit.
    let meters = distance_in_unit(SPEED_20C, 1, Unit::Meters);
    let millimeters = distance_in_unit(SPEED_20C, 1, Unit::Millimeters);
    assert_eq!(meters, 0);
    assert_eq!(millimeters, 171);
    assert!(1000 * meters <= millimeters && millimeters < 1000 * meters + 1000);
}

#[test]
fn zero_elapsed_reads_zero() {
    assert_eq!(distance_in_unit(SPEED_20C, 0, Unit::Meters), 0);
    assert_eq!(distance_in_unit(SPEED_20C, 0, Unit::Millimeters), 0);
}

#[test]
fn reading_near_timeout_is_maximum_range() {
    // An echo that falls right at the calibrated timeout has travelled the
    // rated 4 m out and back: just under 2.0 m one way.
    assert_eq!(distance_in_unit(SPEED_20C, 11_647_545, Unit::Meters), 1_999_999);
}

#[test]
fn timeout_reading_is_absent_not_error() {
    // No falling edge within the timeout: the wait hands back nothing, and
    // the reading is the absent success outcome.
    assert_eq!(reading_from_echo(SPEED_20C, None, 0, Unit::Meters), None);
    assert_eq!(reading_from_echo(SPEED_20C, None, 12_000_000, Unit::Centimeters), None);
}

#[test]
fn spurious_rising_edge_reading_is_absent() {
    assert_eq!(reading_from_echo(SPEED_20C, Some(true), 5_000_000, Unit::Meters), None);
}

#[test]
fn falling_edge_reading_is_present() {
    assert_eq!(
        reading_from_echo(SPEED_20C, Some(false), 5_000_000, Unit::Meters),
        Some(858_550)
    );
}

#[test]
fn absurdly_late_falling_edge_reads_absent() {
    assert_eq!(reading_from_echo(SPEED_20C, Some(false), 1_000_000_001, Unit::Meters), None);
}
