//! Calibration model: speed of sound and echo timeout from the ambient
//! temperature, in fixed point (milli-degrees Celsius, micrometers per
//! second, nanoseconds).

use hc_sr04::HcSr04;

#[test]
fn default_temperature_calibration() {
    // 20.0 C: 331.3 + 0.606 * 20 = 343.42 m/s, timeout 4 m / speed ~ 11.65 ms.
    let (speed, timeout) = HcSr04::calibration_calc(20_000);
    assert_eq!(speed, 343_420_000);
    assert_eq!(timeout, 11_647_545);
}

#[test]
fn warmer_temperature_calibration() {
    // 23.0 C: 331.3 + 0.606 * 23 = 345.238 m/s.
    let (speed, timeout) = HcSr04::calibration_calc(23_000);
    assert_eq!(speed, 345_238_000);
    assert_eq!(timeout, 11_586_210);
}

#[test]
fn zero_temperature_calibration() {
    let (speed, timeout) = HcSr04::calibration_calc(0);
    assert_eq!(speed, 331_300_000);
    assert_eq!(timeout, 12_073_649);
}

#[test]
fn extreme_temperature_calibrations() {
    let (cold_speed, cold_timeout) = HcSr04::calibration_calc(-50_000);
    assert_eq!(cold_speed, 301_000_000);
    assert_eq!(cold_timeout, 13_289_036);
    let (hot_speed, hot_timeout) = HcSr04::calibration_calc(100_000);
    assert_eq!(hot_speed, 391_900_000);
    assert_eq!(hot_timeout, 10_206_685);
}

#[test]
fn timeout_follows_speed_in_every_calibration() {
    // The two values always come from the same temperature: the timeout is
    // the maximum-range round trip at exactly the returned speed.
    for t in [-50_000, -7_000, 0, 4_500, 20_000, 23_000, 61_250, 100_000] {
        let (speed, timeout) = HcSr04::calibration_calc(t);
        assert_eq!(speed, (331_300_000 + 606 * t) as u64);
        assert_eq!(timeout, 4_000_000_000_000_000 / speed);
    }
}

#[test]
fn timeout_strictly_decreases_as_temperature_rises() {
    let temps = [-50_000, -10_000, 0, 10_000, 20_000, 30_000, 100_000];
    for pair in temps.windows(2) {
        let (cool_speed, cool_timeout) = HcSr04::calibration_calc(pair[0]);
        let (warm_speed, warm_timeout) = HcSr04::calibration_calc(pair[1]);
        assert!(cool_speed < warm_speed);
        assert!(warm_timeout < cool_timeout);
    }
}

#[test]
fn timeout_decreases_even_for_one_milli_degree() {
    // Nanosecond resolution keeps the timeout strictly monotonic even
    // across the smallest representable temperature step.
    let (_, cool_timeout) = HcSr04::calibration_calc(20_000);
    let (_, warm_timeout) = HcSr04::calibration_calc(20_001);
    assert_eq!(cool_timeout, 11_647_545);
    assert_eq!(warm_timeout, 11_647_524);
}

#[test]
fn recalibration_changes_both_values_together() {
    let (speed_20, timeout_20) = HcSr04::calibration_calc(20_000);
    let (speed_23, timeout_23) = HcSr04::calibration_calc(23_000);
    assert_ne!(speed_20, speed_23);
    assert_ne!(timeout_20, timeout_23);
    assert_eq!(timeout_23, 4_000_000_000_000_000 / speed_23);
}
