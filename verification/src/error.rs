//! Runtime errors of the driver.

use vstd::prelude::*;
use crate::hal::gpio_error_text;

verus! {

/// What can go wrong while driving the sensor. An out-of-range measurement
/// is not an error: it is the absent success outcome of a measurement.
#[derive(Debug)]
pub enum Error {
    /// A failure reported by the GPIO peripheral while acquiring,
    /// configuring or operating one of the two lines.
    Gpio(rppal::gpio::Error),
    /// The echo line never rose within the calibrated timeout: the sensor
    /// did not answer the trigger pulse at all.
    Timeout(),
}

impl Error {
    /// A human-readable account of the error.
    pub fn message(&self) -> String {
        match self {
            Error::Gpio(e) => gpio_error_text(e),
            Error::Timeout() => "timed out waiting for the echo line to rise".to_string(),
        }
    }
}

impl From<rppal::gpio::Error> for Error {
    fn from(e: rppal::gpio::Error) -> (r: Self) {
        Error::Gpio(e)
    }
}

impl vstd::std_specs::convert::FromSpecImpl<rppal::gpio::Error> for Error {
    open spec fn obeys_from_spec() -> bool {
        true
    }

    open spec fn from_spec(e: rppal::gpio::Error) -> Self {
        Error::Gpio(e)
    }
}

} // verus!
