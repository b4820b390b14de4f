//! Traits for drivers that carry their own delay source.
//!
//! A driver can take ownership of a delay at construction time; the
//! marker trait [`DelayAsyncEnabled`] tracks, in the type, that it has.
//! The operation traits in this module run a whole timed operation to
//! completion against a delay source, as the counterpart to driving the
//! state machines in [`crate::stepper`] poll by poll; both obey the same
//! transition relations.

use vstd::prelude::*;

use crate::traits::{EnableDirectionControl, MotionControl};
use crate::Direction;

verus! {

/// Marker for a driver that has a delay source attached.
pub trait DelayAsyncEnabled<Delay>: Sized {
    /// Take the attached delay back out of the driver.
    fn delay(self) -> Delay;
}

/// Carries the result and error types of a pollable driver operation.
pub trait OutputFutureItem {
    /// The type of result the operation returns
    type OutputFutResult;

    /// The error that can occur while performing the operation
    type Error;
}

/// Implemented by drivers that can take ownership of a delay source.
pub trait SetDelayAsync<Delay>: Sized {
    /// The type of the driver once the delay is attached
    type AsyncEnabled: DelayAsyncEnabled<Delay>;

    /// Attach a delay source to be used with timed operations.
    fn set_delay(self, delay: Delay) -> Self::AsyncEnabled;
}

/// Implemented by drivers that can set the direction and see the whole
/// timed operation through in one call.
pub trait SetDirectionAsync<Resources, Delay>: EnableDirectionControl<Resources> +
    DelayAsyncEnabled<Delay> {
    /// The error that can occur while setting the direction
    type Error;

    /// How `set_dir_async` changes the driver
    spec fn set_dir_rel(pre: Self, post: Self, direction: Direction) -> bool;

    /// Set the direction and hold it for the driver's setup time.
    fn set_dir_async(&mut self, direction: Direction) -> (r: Result<(), Self::Error>)
        ensures
            r is Ok ==> Self::set_dir_rel(*old(self), *final(self), direction),
    ;
}

/// Implemented by drivers that can fire one whole step in one call.
pub trait StepAsync<Delay>: OutputFutureItem + Sized {
    /// What one whole step does to the driver, and which results it can
    /// report
    spec fn step_async_rel(
        pre: Self,
        post: Self,
        r: Result<Self::OutputFutResult, Self::Error>,
    ) -> bool;

    /// Perform a single step, waiting the driver's mandated delays on the
    /// given delay source.
    fn step_async(&mut self, delay: &mut Delay) -> (r: Result<
        Self::OutputFutResult,
        Self::Error,
    >)
        ensures
            Self::step_async_rel(*old(self), *final(self), r),
    ;
}

/// Implemented by drivers that can release the motor coils in one call.
pub trait ReleaseAsync<Delay>: Sized {
    /// The error that can occur while releasing the coils
    type Error;

    /// How `release_async` changes the driver
    spec fn release_async_rel(pre: Self, post: Self) -> bool;

    /// Drive all winding pins to their idle level.
    fn release_async(&mut self) -> (r: Result<(), Self::Error>)
        ensures
            r is Ok,
            Self::release_async_rel(*old(self), *final(self)),
    ;
}

/// Implemented by motion control drivers whose move requests are made
/// from asynchronous contexts; the request itself must not block, exactly
/// as [`MotionControl::move_to_position`] promises.
pub trait MotionControlAsync: MotionControl {
    /// Arrange for a move to the given position without blocking; the
    /// motion makes progress on each subsequent [`MotionControl::update`].
    fn move_to_position_async(&mut self, max_velocity: Self::Velocity, target_step: i32) -> (r:
        Result<(), Self::Error>)
        ensures
            old(self).spec_busy() ==> (r matches Err(e) && e == old(self).spec_busy_err()
                && *final(self) == *old(self)),
            !old(self).spec_busy() ==> r is Ok && final(self).spec_busy()
                && final(self).spec_position() == old(self).spec_position(),
    ;
}

} // verus!
