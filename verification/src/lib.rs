//! Platform-agnostic stepper motor control.
//!
//! This crate drives stepper motors by toggling digital output pins in
//! precisely timed sequences. It abstracts over several physical driver
//! chips (STEP/DIR controllers, microstepping ICs, and raw multi-line
//! signal sequencers) behind a uniform capability-based interface:
//! a driver value starts without access to any hardware resource, and each
//! capability (direction control, step control, microstepping mode control)
//! becomes available only once the pins it needs have been moved into the
//! driver.
//!
//! Pins are modelled as commanded output levels together with the full
//! sequence of levels ever written to them, so every contract in this
//! crate can speak about the exact signals a driver issues. The embedding
//! platform mirrors those commanded levels onto real hardware and supplies
//! the timers that the signal state machines wait on.

use vstd::prelude::*;

pub mod drivers;
pub mod motion_control;
pub mod pin;
pub mod step_mode;
pub mod stepper;
pub mod test_utils;
pub mod traits;
pub mod traits_async;
pub mod util;

verus! {

/// Direction a stepper motor turns in.
#[derive(Clone, Copy, PartialEq, Eq, Structural, Debug)]
pub enum Direction {
    /// Rotate the motor forward
    Forward,
    /// Rotate the motor backward
    Backward,
}

/// A duration in nanoseconds.
///
/// Datasheet timing constants are given in nanoseconds; timed waits are
/// issued to the platform in whole microseconds, rounding down.
#[derive(Clone, Copy, PartialEq, Eq, Structural, Debug)]
pub struct Nanoseconds {
    /// Number of nanoseconds
    pub ticks: u32,
}

impl Nanoseconds {
    /// Build a duration from a nanosecond count.
    pub fn from_ticks(ticks: u32) -> (r: Nanoseconds)
        ensures
            r.ticks == ticks,
    {
        Nanoseconds { ticks }
    }

    /// The duration in whole microseconds, rounding down.
    pub fn to_micros(&self) -> (r: u32)
        ensures
            r == self.ticks / 1000,
    {
        self.ticks / 1000
    }
}

/// An error that can occur while issuing a timed signal to a driver.
#[derive(Clone, Copy, PartialEq, Eq, Debug)]
pub enum SignalError<PinUnavailableError, PinError, TimerError> {
    /// The driver declined to produce an action for the request; the caller
    /// must correct the configuration before retrying
    PinUnavailable(PinUnavailableError),
    /// Writing a new level to a pin failed
    Pin(PinError),
    /// The timer or delay primitive reported a fault
    Timer(TimerError),
}

/// The outcome of polling a cooperative operation: either it has not
/// finished yet, or it is done and carries its result.
#[derive(Clone, Copy, PartialEq, Eq, Debug)]
pub enum Poll<T> {
    /// The operation has not completed yet
    Pending,
    /// The operation has completed with the given result
    Ready(T),
}

} // verus!
