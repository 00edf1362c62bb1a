//! Trusted boundary to the GPIO peripheral and to the monotonic clock.
//!
//! Every function here is believed, not verified: each one holds a single
//! call into `rppal` or into the standard library, together with the plain
//! conversion of its arguments and result. Nothing is promised of outcomes
//! that depend on the hardware or on the clock; the verified code states
//! what holds of every outcome instead.

use vstd::prelude::*;
use rppal::gpio::{Error as GpioError, Gpio, InputPin, Level, OutputPin, Pin, Trigger};
use std::time::Instant;

verus! {

#[verifier::external_type_specification]
#[verifier::external_body]
pub struct ExGpio(Gpio);

#[verifier::external_type_specification]
#[verifier::external_body]
pub struct ExPin(Pin);

#[verifier::external_type_specification]
#[verifier::external_body]
pub struct ExOutputPin(OutputPin);

#[verifier::external_type_specification]
#[verifier::external_body]
pub struct ExInputPin(InputPin);

#[verifier::external_type_specification]
#[verifier::external_body]
pub struct ExGpioError(GpioError);

#[verifier::external_type_specification]
#[verifier::external_body]
pub struct ExInstant(Instant);

/// Relies on rppal's Gpio::new: a handle to the GPIO peripheral, or an error
/// when the peripheral cannot be identified or accessed.
#[verifier::external_body]
pub(crate) fn gpio_open() -> Result<Gpio, GpioError> {
    Gpio::new()
}

/// Relies on rppal's Gpio::get: exclusive ownership of the line with the
/// given number, or an error when the line does not exist or is already
/// claimed.
#[verifier::external_body]
pub(crate) fn gpio_acquire_pin(gpio: &Gpio, pin: u8) -> Result<Pin, GpioError> {
    gpio.get(pin)
}

/// Relies on rppal's Pin::into_output_low: the line reconfigured as an
/// output, driven low.
#[verifier::external_body]
pub(crate) fn pin_into_output_low(pin: Pin) -> OutputPin {
    pin.into_output_low()
}

/// Relies on rppal's Pin::into_input_pulldown: the line reconfigured as an
/// input with its pull resistor toward low.
#[verifier::external_body]
pub(crate) fn pin_into_input_pulldown(pin: Pin) -> InputPin {
    pin.into_input_pulldown()
}

/// Relies on rppal's InputPin::set_interrupt with both edges: afterwards the
/// line reports rising and falling transitions to the poll below.
#[verifier::external_body]
pub(crate) fn arm_both_edges(pin: &mut InputPin) -> Result<(), GpioError> {
    pin.set_interrupt(Trigger::Both)
}

/// Relies on rppal's OutputPin::set_high: drives the line high.
#[verifier::external_body]
pub(crate) fn drive_high(pin: &mut OutputPin) {
    pin.set_high()
}

/// Relies on rppal's OutputPin::set_low: drives the line low.
#[verifier::external_body]
pub(crate) fn drive_low(pin: &mut OutputPin) {
    pin.set_low()
}

/// Relies on rppal's InputPin::poll_interrupt: blocks until an armed edge
/// arrives or the given timeout passes. An edge is reported as the level the
/// line settled on (true for high, so a rising edge); a timeout is reported
/// as nothing. Which outcome arrives, and when, depends on the hardware
/// alone, so nothing more is promised of it.
#[verifier::external_body]
pub(crate) fn poll_echo_edge(pin: &mut InputPin, timeout_ns: Option<u64>) -> Result<
    Option<bool>,
    GpioError,
> {
    let timeout = match timeout_ns {
        Some(ns) => Some(std::time::Duration::from_nanos(ns)),
        None => None,
    };
    match pin.poll_interrupt(false, timeout) {
        Ok(Some(Level::High)) => Ok(Some(true)),
        Ok(Some(Level::Low)) => Ok(Some(false)),
        Ok(None) => Ok(None),
        Err(e) => Err(e),
    }
}

/// Relies on std's Instant::now: a reading of the monotonic clock.
#[verifier::external_body]
pub(crate) fn monotonic_now() -> Instant {
    Instant::now()
}

/// Relies on std's Instant::elapsed: the nanoseconds since the reading was
/// taken. The clock decides the value, so nothing is promised of it.
#[verifier::external_body]
pub(crate) fn elapsed_ns(since: &Instant) -> u64 {
    since.elapsed().as_nanos() as u64
}

/// Relies on the Display impl of rppal's gpio::Error for the error's text.
#[verifier::external_body]
pub(crate) fn gpio_error_text(e: &GpioError) -> String {
    format!("GPIO error: {}", e)
}

} // verus!
