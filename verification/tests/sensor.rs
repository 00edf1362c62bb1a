//! Sensor-handle construction against the real GPIO collaborator.

use hc_sr04::error::Error;
use hc_sr04::HcSr04;

#[test]
fn construction_fails_cleanly_without_gpio_peripheral() {
    // On a host without the GPIO peripheral both lines are unacquirable:
    // construction must surface the hardware error rather than panic, and
    // drops whatever it had claimed.
    let result = HcSr04::new(24, 23, None);
    assert!(matches!(result, Err(Error::Gpio(_))));
}

#[test]
fn timeout_error_message_names_the_echo_line() {
    assert_eq!(
        Error::Timeout().message(),
        "timed out waiting for the echo line to rise"
    );
}

#[test]
fn construction_failure_message_names_the_gpio() {
    let result = HcSr04::new(24, 23, Some(23_000));
    match result {
        Err(e) => assert!(e.message().starts_with("GPIO error")),
        Ok(_) => panic!("no GPIO peripheral should be present here"),
    }
}
