//! Driver for the HC-SR04 ultrasonic distance sensor on GPIO-equipped
//! single-board computers.
//!
//! The driver raises a trigger line for a fixed pulse width, waits for the
//! echo line to rise and then to fall again, and converts the elapsed time
//! into a distance from the temperature-calibrated speed of sound.
//! Temperatures are milli-degrees Celsius and reported distances are
//! fixed-point integers in millionths of the requested unit.

use vstd::prelude::*;

pub mod calibration;
pub mod distance;
pub mod error;
mod hal;

use crate::calibration::{
    echo_timeout_ns, sound_speed_um_s, valid_temp_milli_c, DEFAULT_TEMP_MILLI_C,
    MAX_RANGE_UM_NS_PER_S, SPEED_MAX_UM_S, SPEED_MIN_UM_S,
};
use crate::distance::{micro_units_of, reading_from_echo, MAX_ELAPSED_NS};
use crate::error::Error;
use rppal::gpio::{InputPin, OutputPin};

verus! {

/// Measuring unit for reported distances.
#[derive(Clone, Copy, Debug, PartialEq, Eq, Structural)]
pub enum Unit {
    Millimeters,
    Centimeters,
    Decimeters,
    Meters,
}

/// Width of the trigger pulse the sensor's circuitry asks for, in
/// nanoseconds. A physical requirement, not configurable.
pub const TRIGGER_PULSE_NS: u64 = 10_000;

/// Iteration budget of the spin wait that holds the trigger pulse. The wait
/// normally ends after a few hundred clock readings; the budget only keeps
/// the loop finite if the monotonic clock stops advancing.
const PULSE_SPIN_BUDGET: u64 = 100_000_000;

/// How many spurious falling edges the wait for the rising edge tolerates
/// before it gives up. Each poll is itself bounded by the calibrated
/// timeout, so the whole wait stays finite.
const RISING_EDGE_BUDGET: u64 = 4096;

/// HC-SR04 ultrasonic sensor handle: exclusive owner of the trigger output
/// line and of the echo input line, together with the calibration the
/// readings are computed from.
#[derive(Debug)]
pub struct HcSr04 {
    trig: OutputPin,
    echo: InputPin,
    sound_speed: u64,
    timeout_ns: u64,
}

impl HcSr04 {
    /// Calibrated speed of sound, in micrometers per second.
    pub closed spec fn speed_of_sound(self) -> u64 {
        self.sound_speed
    }

    /// Calibrated wait for the falling echo edge, in nanoseconds.
    pub closed spec fn echo_timeout(self) -> u64 {
        self.timeout_ns
    }

    /// The handle's invariant: both calibration values derive from one and
    /// the same accepted ambient temperature, never independently.
    pub open spec fn wf(self) -> bool {
        &&& exists|t: int|
            valid_temp_milli_c(t) && self.speed_of_sound() == sound_speed_um_s(t)
        &&& self.echo_timeout() == echo_timeout_ns(self.speed_of_sound() as int)
    }

    /// Both calibration values for ambient temperature `temp_milli_c`: the
    /// speed of sound in micrometers per second, and the echo timeout in
    /// nanoseconds — the time the slowest admissible wave needs for the
    /// maximum-range round trip at that speed.
    pub fn calibration_calc(temp_milli_c: i64) -> (r: (u64, u64))
        requires
            valid_temp_milli_c(temp_milli_c as int),
        ensures
            r.0 == sound_speed_um_s(temp_milli_c as int),
            r.1 == echo_timeout_ns(r.0 as int),
    {
        let speed_i: i64 = 331_300_000 + 606 * temp_milli_c;
        let speed: u64 = speed_i as u64;
        let timeout: u64 = MAX_RANGE_UM_NS_PER_S / speed;
        (speed, timeout)
    }

    /// Acquire the two GPIO lines and build a calibrated handle: the trigger
    /// line as an output driven low, the echo line as an input pulled low
    /// and armed to report both edges. Without a supplied temperature the
    /// calibration assumes 20 C. Any line that cannot be claimed or
    /// configured yields a GPIO error, and nothing stays claimed.
    pub fn new(trig: u8, echo: u8, temp_milli_c: Option<i64>) -> (r: Result<HcSr04, Error>)
        requires
            temp_milli_c matches Some(t) ==> valid_temp_milli_c(t as int),
        ensures
            r matches Ok(h) ==> {
                &&& h.wf()
                &&& h.speed_of_sound() == sound_speed_um_s(
                    match temp_milli_c {
                        Some(t) => t as int,
                        None => DEFAULT_TEMP_MILLI_C as int,
                    },
                )
            },
            r matches Err(e) ==> e is Gpio,
    {
        let gpio = match hal::gpio_open() {
            Ok(g) => g,
            Err(e) => { return Err(Error::Gpio(e)) },
        };
        let echo_pin = match hal::gpio_acquire_pin(&gpio, echo) {
            Ok(p) => p,
            Err(e) => { return Err(Error::Gpio(e)) },
        };
        let mut echo_input = hal::pin_into_input_pulldown(echo_pin);
        match hal::arm_both_edges(&mut echo_input) {
            Ok(_) => (),
            Err(e) => { return Err(Error::Gpio(e)) },
        }
        let temp: i64 = match temp_milli_c {
            Some(t) => t,
            None => DEFAULT_TEMP_MILLI_C,
        };
        let (sound_speed, timeout_ns) = Self::calibration_calc(temp);
        let trig_pin = match hal::gpio_acquire_pin(&gpio, trig) {
            Ok(p) => p,
            Err(e) => { return Err(Error::Gpio(e)) },
        };
        Ok(
            HcSr04 {
                trig: hal::pin_into_output_low(trig_pin),
                echo: echo_input,
                sound_speed,
                timeout_ns,
            },
        )
    }

    /// Recalibrate for a new ambient temperature. Both calibration values
    /// are recomputed from the one temperature and replaced together: no
    /// caller ever observes one updated and the other stale.
    pub fn calibrate(&mut self, temp_milli_c: i64)
        requires
            valid_temp_milli_c(temp_milli_c as int),
        ensures
            final(self).speed_of_sound() == sound_speed_um_s(temp_milli_c as int),
            final(self).echo_timeout() == echo_timeout_ns(final(self).speed_of_sound() as int),
            final(self).wf(),
    {
        let (sound_speed, timeout_ns) = Self::calibration_calc(temp_milli_c);
        self.sound_speed = sound_speed;
        self.timeout_ns = timeout_ns;
    }

    /// Perform one distance measurement.
    ///
    /// The trigger line is held high for the fixed pulse width, then the
    /// driver waits for the echo line to rise and times how long it stays
    /// high. A falling edge within the calibrated timeout yields the one-way
    /// distance in millionths of the requested unit; a timeout on the
    /// falling edge means no object within range and yields the absent
    /// value, which is a success, not an error. A rising edge that never
    /// comes within the same calibrated bound yields `Error::Timeout`, and
    /// any GPIO failure yields `Error::Gpio`. The calibration is never
    /// changed by a measurement.
    pub fn measure_distance(&mut self, unit: Unit) -> (r: Result<Option<u64>, Error>)
        requires
            old(self).wf(),
        ensures
            final(self).wf(),
            final(self).speed_of_sound() == old(self).speed_of_sound(),
            final(self).echo_timeout() == old(self).echo_timeout(),
            r matches Ok(Some(d)) ==> exists|e: int|
                0 <= e <= MAX_ELAPSED_NS && d == micro_units_of(
                    old(self).speed_of_sound() as int,
                    e,
                    unit,
                ),
    {
        proof {
            lemma_wf_speed_bounds(*old(self));
        }
        // Trigger pulse: drive the line high, hold it for the pulse width by
        // spinning on the monotonic clock, drive it low again.
        hal::drive_high(&mut self.trig);
        let pulse_start = hal::monotonic_now();
        let mut budget: u64 = PULSE_SPIN_BUDGET;
        let mut held: u64 = hal::elapsed_ns(&pulse_start);
        while budget > 0 && held < TRIGGER_PULSE_NS
            decreases budget,
        {
            budget = budget - 1;
            held = hal::elapsed_ns(&pulse_start);
        }
        hal::drive_low(&mut self.trig);

        // Wait for the rising edge, each poll bounded by the calibrated
        // timeout so that a silent sensor cannot block the caller forever.
        let mut polls: u64 = RISING_EDGE_BUDGET;
        loop
            invariant_except_break
                self.speed_of_sound() == old(self).speed_of_sound(),
                self.echo_timeout() == old(self).echo_timeout(),
                self.wf(),
            ensures
                self.speed_of_sound() == old(self).speed_of_sound(),
                self.echo_timeout() == old(self).echo_timeout(),
                self.wf(),
            decreases polls,
        {
            if polls == 0 {
                return Err(Error::Timeout());
            }
            polls = polls - 1;
            match hal::poll_echo_edge(&mut self.echo, Some(self.timeout_ns)) {
                Ok(Some(true)) => { break },
                Ok(Some(false)) => (),
                Ok(None) => { return Err(Error::Timeout()) },
                Err(e) => { return Err(Error::Gpio(e)) },
            }
        }

        // The echo is in flight: time it until the falling edge, bounded by
        // the calibrated timeout.
        let start = hal::monotonic_now();
        match hal::poll_echo_edge(&mut self.echo, Some(self.timeout_ns)) {
            Err(e) => Err(Error::Gpio(e)),
            Ok(edge) => {
                let elapsed = hal::elapsed_ns(&start);
                Ok(reading_from_echo(self.sound_speed, edge, elapsed, unit))
            },
        }
    }
}

/// A well-formed handle's speed of sound stays within the two bounds of the
/// accepted temperature range.
pub proof fn lemma_wf_speed_bounds(h: HcSr04)
    requires
        h.wf(),
    ensures
        SPEED_MIN_UM_S <= h.speed_of_sound() <= SPEED_MAX_UM_S,
{
    let t = choose|t: int| valid_temp_milli_c(t) && h.speed_of_sound() == sound_speed_um_s(t);
    calibration::lemma_speed_bounds(t);
}

} // verus!
