//! The state machine behind a position move.

use vstd::prelude::*;

use crate::stepper::legacy_future::LegacyFuture;
use crate::traits::MotionControl;
use crate::Poll;

verus! {

/// Phase of a [`MoveToFuture`].
#[derive(Clone, Copy, PartialEq, Eq, Debug)]
pub enum MoveToState<Velocity> {
    /// The move has not been requested yet
    Initial {
        /// The peak velocity of the move
        max_velocity: Velocity,
        /// The position the move heads for
        target_step: i32,
    },
    /// The move is in progress
    Moving,
    /// The operation is complete
    Finished,
}

/// The state machine behind a position move.
///
/// Leaving `Initial`, the machine arranges the move with the driver's
/// motion control; each further poll advances the motion by one phase
/// until the driver reports that it has completed. Further polls of a
/// finished machine report completion immediately.
pub struct MoveToFuture<Driver: MotionControl> {
    driver: Driver,
    state: MoveToState<Driver::Velocity>,
}

impl<Driver: MotionControl> MoveToFuture<Driver> {
    /// The driver the operation works on.
    pub closed spec fn spec_driver(&self) -> Driver {
        self.driver
    }

    /// The machine's current phase.
    pub closed spec fn spec_state(&self) -> MoveToState<Driver::Velocity> {
        self.state
    }

    /// Phases left until completion; the busy-poll measure.
    pub open spec fn spec_rank(&self) -> nat {
        match self.spec_state() {
            MoveToState::Initial { .. } => 2,
            MoveToState::Moving => 1,
            MoveToState::Finished => 0,
        }
    }

    /// Create a new instance of `MoveToFuture`, taking ownership of the
    /// driver until the operation completes.
    pub fn new(driver: Driver, max_velocity: Driver::Velocity, target_step: i32) -> (r:
        MoveToFuture<Driver>)
        ensures
            r.spec_driver() == driver,
            r.spec_state() == (MoveToState::Initial { max_velocity, target_step }),
    {
        MoveToFuture { driver, state: MoveToState::Initial { max_velocity, target_step } }
    }

    /// Drop the machine and release the driver that was moved into it.
    pub fn release(self) -> (r: Driver)
        ensures
            r == self.spec_driver(),
    {
        self.driver
    }
}

impl<Driver: MotionControl> LegacyFuture for MoveToFuture<Driver> {
    type DriverError = Driver::Error;

    type TimerError = ();

    type FutureOutput = Result<(), Driver::Error>;

    /// Advance the operation by at most one phase.
    ///
    /// Leaving `Initial`, the move is arranged with the driver; a driver
    /// that is already busy fails the machine with its busy error and the
    /// in-flight move is left untouched. While `Moving`, each poll
    /// advances the motion by one phase; the machine finishes when the
    /// driver reports completion, and a driver error is terminal.
    fn poll(&mut self) -> (r: Poll<Result<(), Driver::Error>>)
        ensures
            r is Pending ==> final(self).spec_rank() < old(self).spec_rank()
                || (final(self).spec_rank() == old(self).spec_rank()
                    && final(self).spec_driver().spec_progress()
                        < old(self).spec_driver().spec_progress()),
            old(self).spec_state() matches MoveToState::Initial { max_velocity, target_step }
                ==> ({
                &&& (old(self).spec_driver().spec_busy() ==> final(self).spec_state()
                    is Finished && r == Poll::Ready(Err::<(), Driver::Error>(
                    old(self).spec_driver().spec_busy_err(),
                )) && final(self).spec_driver() == old(self).spec_driver())
                &&& (!old(self).spec_driver().spec_busy() ==> final(self).spec_state() is Moving
                    && r is Pending && final(self).spec_driver().spec_busy()
                    && final(self).spec_driver().spec_position()
                        == old(self).spec_driver().spec_position())
            }),
            old(self).spec_state() is Moving ==> ((r is Pending && final(self).spec_state()
                is Moving) || (final(self).spec_state() is Finished
                && ((r == Poll::Ready(Ok::<(), Driver::Error>(()))
                    && !final(self).spec_driver().spec_busy())
                || (r matches Poll::Ready(Err(_)) && !final(self).spec_driver().spec_busy())))),
            old(self).spec_state() is Finished ==> r == Poll::Ready(Ok::<(), Driver::Error>(()))
                && *final(self) == *old(self),
    {
        match self.state {
            MoveToState::Initial { max_velocity, target_step } => {
                match self.driver.move_to_position(max_velocity, target_step) {
                    Ok(_) => {
                        self.state = MoveToState::Moving;
                        Poll::Pending
                    },
                    Err(e) => {
                        self.state = MoveToState::Finished;
                        Poll::Ready(Err(e))
                    },
                }
            },
            MoveToState::Moving => {
                match self.driver.update() {
                    Ok(true) => Poll::Pending,
                    Ok(false) => {
                        self.state = MoveToState::Finished;
                        Poll::Ready(Ok(()))
                    },
                    Err(e) => {
                        self.state = MoveToState::Finished;
                        Poll::Ready(Err(e))
                    },
                }
            },
            MoveToState::Finished => Poll::Ready(Ok(())),
        }
    }

    /// Busy-poll until the operation completes.
    ///
    /// When the machine started in `Initial` or `Moving`, a success
    /// result means the motion has completed and the driver is idle
    /// again.
    fn wait(&mut self) -> (r: Result<(), Driver::Error>)
        ensures
            final(self).spec_state() is Finished,
            !(old(self).spec_state() is Finished) && r is Ok
                ==> !final(self).spec_driver().spec_busy(),
    {
        loop
            invariant
                old(self).spec_state() is Finished ==> self.spec_state() is Finished,
                !(old(self).spec_state() is Finished) ==> !(self.spec_state() is Finished),
            decreases self.spec_rank(), self.spec_driver().spec_progress(),
        {
            match self.poll() {
                Poll::Ready(result) => {
                    return result;
                },
                Poll::Pending => {},
            }
        }
    }
}

} // verus!
