//! Traits that stepper drivers implement.
//!
//! There are two kinds of traits in this module:
//! 1. Those that provide a minimal low-level interface over a specific
//!    capability, such as controlling the microstepping mode.
//! 2. Those that provide an API for enabling these capabilities, taking
//!    ownership of the resources that are required to do so.
//!
//! When constructed, drivers do not provide access to any of their
//! capabilities: users enable exactly the capabilities they need, and do
//! not have to supply hardware resources for the others. An operation of a
//! capability is only reachable once the resources for it have been moved
//! into the driver, so a missing resource is a type error, not a runtime
//! failure.
//!
//! Each mutating capability operation carries a relation, stated as a spec
//! function of the implementing driver, between the driver before the
//! call, the driver after it, and the pin actions the operation asks for.
//! Generic code over these traits is verified against those relations, and
//! each driver pins the relation down to exact pin writes.

use vstd::prelude::*;

use crate::pin::Level;
use crate::Direction;
use crate::Nanoseconds;

verus! {

/// What a signalling operation must do to one output pin.
///
/// `NoOp` exists because some drivers track direction purely in software
/// state and drive no physical direction pin.
#[derive(Clone, Copy, PartialEq, Eq, Debug)]
pub enum OutputPinAction<Pin> {
    /// Drive the given pin to the given level
    SetLevel(Pin, Level),
    /// No action to be taken
    NoOp,
}

/// Carries the result and error types of a driver's step operation.
pub trait OutputStepFutureItem {
    /// The type of result a step returns
    type OutputStepFutureResult;

    /// The error that can occur while performing a step
    type OutputStepFutureError;
}

/// Implemented by drivers that support controlling the microstepping mode.
///
/// A mode change is two-phase: `apply_mode_config` holds the driver in
/// standby while the mode pins settle, and `enable_driver` releases it
/// again once they have been held for the setup time.
pub trait SetStepMode: Sized {
    /// The type that selects the microstepping mode
    type StepMode: Copy;

    /// The time the mode signals need to be held before re-enabling the
    /// driver, in nanoseconds
    spec fn spec_setup_time(&self) -> u32;

    /// The time the mode signals need to be held after re-enabling the
    /// driver, in nanoseconds
    spec fn spec_hold_time(&self) -> u32;

    /// How `apply_mode_config` changes the driver
    spec fn apply_rel(pre: Self, post: Self, step_mode: Self::StepMode) -> bool;

    /// How `enable_driver` changes the driver
    spec fn enable_rel(pre: Self, post: Self) -> bool;

    /// The time the mode signals need to be held before re-enabling the
    /// driver.
    fn setup_time(&self) -> (r: Nanoseconds)
        ensures
            r.ticks == self.spec_setup_time(),
    ;

    /// The time the mode signals need to be held after re-enabling the
    /// driver.
    fn hold_time(&self) -> (r: Nanoseconds)
        ensures
            r.ticks == self.spec_hold_time(),
    ;

    /// Apply the new step mode configuration.
    ///
    /// This puts the driver into standby and sets the mode pins according
    /// to the new step mode.
    fn apply_mode_config(&mut self, step_mode: Self::StepMode) -> (r: Result<(), ()>)
        ensures
            r is Ok,
            Self::apply_rel(*old(self), *final(self), step_mode),
    ;

    /// Re-enable the driver after the mode has been set.
    fn enable_driver(&mut self) -> (r: Result<(), ()>)
        ensures
            r is Ok,
            Self::enable_rel(*old(self), *final(self)),
    ;
}

/// Enable microstepping mode control for a driver.
///
/// The `Resources` type parameter defines the hardware resources required
/// for controlling the microstepping mode.
pub trait EnableStepModeControl<Resources>: Sized {
    /// The type of the driver once microstepping mode control is enabled
    type WithStepModeControl: SetStepMode;

    /// Enable microstepping mode control, consuming the resources.
    fn enable_step_mode_control(self, res: Resources) -> Self::WithStepModeControl;
}

/// Implemented by drivers that support controlling the direction signal.
pub trait SetDirection: Sized {
    /// The time the direction signal must be held before stepping, in
    /// nanoseconds
    spec fn spec_setup_time(&self) -> u32;

    /// The pin action a direction change asks for
    spec fn spec_dir_action(&self, direction: Direction) -> OutputPinAction<u32>;

    /// How `dir` changes the driver and which pin action it asks for
    spec fn dir_rel(
        pre: Self,
        post: Self,
        direction: Direction,
        action: OutputPinAction<u32>,
    ) -> bool;

    /// The time the direction signal must be held before stepping.
    fn setup_time(&self) -> (r: Nanoseconds)
        ensures
            r.ticks == self.spec_setup_time(),
    ;

    /// Record the new direction and return the pin action that announces
    /// it to the hardware.
    ///
    /// The returned action names the pin by its identifier; the commanded
    /// level is already recorded on the driver's own pin state.
    fn dir(&mut self, direction: Direction) -> (r: Result<OutputPinAction<u32>, ()>)
        ensures
            r == Ok::<OutputPinAction<u32>, ()>(old(self).spec_dir_action(direction)),
            Self::dir_rel(
                *old(self),
                *final(self),
                direction,
                old(self).spec_dir_action(direction),
            ),
    ;
}

/// Enable direction control for a driver.
///
/// The `Resources` type parameter defines the hardware resources required
/// for direction control.
pub trait EnableDirectionControl<Resources>: Sized {
    /// The type of the driver once direction control is enabled
    type WithDirectionControl: SetDirection;

    /// Enable direction control, consuming the resources.
    fn enable_direction_control(self, res: Resources) -> Self::WithDirectionControl;
}

/// Implemented by drivers that fire their pins on each step.
///
/// A step is decomposed into a leading edge and a trailing edge; the pulse
/// state machine sequences the two around the mandated pulse duration.
pub trait Step: Sized {
    /// The error that can occur while performing a step
    type Error;

    /// The time the step signal must be held on each edge, in nanoseconds
    spec fn spec_pulse_length(&self) -> u32;

    /// Whether the driver is in a state in which it can step
    spec fn spec_step_ok(&self) -> bool;

    /// The pin actions the leading edge asks for
    spec fn spec_leading_actions(&self) -> Seq<OutputPinAction<u32>>;

    /// The pin actions the trailing edge asks for
    spec fn spec_trailing_actions(&self) -> Seq<OutputPinAction<u32>>;

    /// The error reported when the driver cannot step
    spec fn spec_step_err(&self) -> Self::Error;

    /// How `step_leading` changes the driver and which pin actions it asks
    /// for
    spec fn leading_rel(pre: Self, post: Self, actions: Seq<OutputPinAction<u32>>) -> bool;

    /// How `step_trailing` changes the driver and which pin actions it
    /// asks for
    spec fn trailing_rel(pre: Self, post: Self, actions: Seq<OutputPinAction<u32>>) -> bool;

    /// The time the step signal must be held on each edge.
    fn pulse_length(&self) -> (r: Nanoseconds)
        ensures
            r.ticks == self.spec_pulse_length(),
    ;

    /// Issue the leading edge of one step: one action per bus line.
    ///
    /// The commanded levels are already recorded on the driver's own pin
    /// state; the returned actions name the pins by their identifiers.
    fn step_leading(&mut self) -> (r: Result<Vec<OutputPinAction<u32>>, Self::Error>)
        ensures
            old(self).spec_step_ok() ==> (r matches Ok(actions) && actions@ == old(
                self,
            ).spec_leading_actions() && Self::leading_rel(
                *old(self),
                *final(self),
                old(self).spec_leading_actions(),
            )),
            !old(self).spec_step_ok() ==> (r matches Err(e) && e == old(self).spec_step_err()
                && *final(self) == *old(self)),
    ;

    /// Issue the trailing edge of one step: one action per bus line.
    fn step_trailing(&mut self) -> (r: Result<Vec<OutputPinAction<u32>>, Self::Error>)
        ensures
            r matches Ok(actions) && actions@ == old(self).spec_trailing_actions()
                && Self::trailing_rel(
                *old(self),
                *final(self),
                old(self).spec_trailing_actions(),
            ),
    ;
}

/// Enable step control for a driver.
///
/// The `Resources` type parameter defines the hardware resources required
/// for step control.
pub trait EnableStepControl<Resources>: Sized {
    /// The type of the driver once step control is enabled
    type WithStepControl: Step;

    /// Enable step control, consuming the resources.
    fn enable_step_control(self, res: Resources) -> Self::WithStepControl;
}

/// Implemented by drivers that can stop holding current in the motor
/// coils.
///
/// Releasing the coils drives all winding pins to their idle level without
/// altering the tracked step position. This is an energy-saving measure;
/// whether the motor keeps its position afterwards depends on the load.
pub trait ReleaseCoils: Sized {
    /// The error that can occur while releasing the coils
    type Error;

    /// How `release_coils` changes the driver
    spec fn release_rel(pre: Self, post: Self) -> bool;

    /// Drive all winding pins to their idle level.
    fn release_coils(&mut self) -> (r: Result<(), Self::Error>)
        ensures
            r is Ok,
            Self::release_rel(*old(self), *final(self)),
    ;
}

/// Implemented by drivers that have motion control capabilities.
///
/// A software implementation for drivers that only support [`SetDirection`]
/// and [`Step`] lives in [`crate::motion_control`].
pub trait MotionControl: Sized {
    /// The type used by the driver to represent velocity
    type Velocity: Copy;

    /// The error that can happen when using this trait
    type Error;

    /// The tracked step position
    spec fn spec_position(&self) -> int;

    /// Whether a motion is currently in flight
    spec fn spec_busy(&self) -> bool;

    /// The direction of the last motion that was started
    spec fn spec_direction(&self) -> Direction;

    /// The error reported when an operation is requested while a motion is
    /// in flight
    spec fn spec_busy_err(&self) -> Self::Error;

    /// Progress measure: an upper bound on the `Ok(true)` answers
    /// [`MotionControl::update`] has left before the motion completes
    spec fn spec_progress(&self) -> nat;

    /// Arrange for a move to the given position.
    ///
    /// This must not block until the move is complete: the motion makes
    /// progress on each subsequent call of [`MotionControl::update`]. At
    /// most one motion may be in flight; a second request fails with the
    /// busy error and leaves the in-flight motion untouched.
    fn move_to_position(&mut self, max_velocity: Self::Velocity, target_step: i32) -> (r: Result<
        (),
        Self::Error,
    >)
        ensures
            old(self).spec_busy() ==> (r matches Err(e) && e == old(self).spec_busy_err()
                && *final(self) == *old(self)),
            !old(self).spec_busy() ==> r is Ok && final(self).spec_busy()
                && final(self).spec_position() == old(self).spec_position(),
    ;

    /// Overwrite the tracked position without issuing any pin activity.
    ///
    /// Only legal while no motion is in flight.
    fn reset_position(&mut self, step: i32) -> (r: Result<(), Self::Error>)
        ensures
            old(self).spec_busy() ==> (r matches Err(e) && e == old(self).spec_busy_err()
                && *final(self) == *old(self)),
            !old(self).spec_busy() ==> r is Ok && final(self).spec_position() == step as int
                && !final(self).spec_busy(),
    ;

    /// Advance an ongoing motion by at most one phase.
    ///
    /// Returns `Ok(true)` while the motion is still ongoing and `Ok(false)`
    /// once it has completed. A failed motion is terminal: after an error
    /// the driver is idle again.
    fn update(&mut self) -> (r: Result<bool, Self::Error>)
        ensures
            r == Ok::<bool, Self::Error>(false) ==> !final(self).spec_busy()
                && final(self).spec_position() == old(self).spec_position(),
            r == Ok::<bool, Self::Error>(true) ==> final(self).spec_progress() < old(
                self,
            ).spec_progress(),
            r matches Err(_) ==> !final(self).spec_busy(),
    ;
}

/// Enable motion control for a driver.
///
/// The `Resources` type parameter defines the resources required for
/// motion control.
pub trait EnableMotionControl<Resources>: Sized {
    /// The type of the driver once motion control is enabled
    type WithMotionControl: MotionControl;

    /// Enable motion control, consuming the resources.
    fn enable_motion_control(self, res: Resources) -> Self::WithMotionControl;
}

} // verus!
