//! The state machine behind setting a motor's direction.

use vstd::prelude::*;

use crate::stepper::legacy_future::LegacyFuture;
use crate::traits::{OutputPinAction, SetDirection};
use crate::util::delay::Delay;
use crate::Direction;
use crate::Poll;
use crate::SignalError;

verus! {

/// Phase of a [`SetDirectionFuture`].
#[derive(Clone, Copy, PartialEq, Eq, Structural, Debug)]
pub enum SetDirectionState {
    /// The direction has not been issued yet
    Initial,
    /// The direction is issued; the setup time is counting down
    DirectionSet,
    /// The operation is complete
    Finished,
}

/// The state machine behind setting a motor's direction.
///
/// In `Initial`, polling issues the driver's direction action and starts
/// a wait for the driver's setup time; once the wait elapses the machine
/// is `Finished`. There is no trailing action: the direction level must
/// simply be held stable before subsequent stepping. Further polls of a
/// finished machine report completion immediately.
pub struct SetDirectionFuture<Driver, Del> {
    direction: Direction,
    driver: Driver,
    delay: Del,
    state: SetDirectionState,
    init: Ghost<Driver>,
}

impl<Driver: SetDirection, Del: Delay> SetDirectionFuture<Driver, Del> {
    /// The direction being set.
    pub closed spec fn spec_direction(&self) -> Direction {
        self.direction
    }

    /// The driver the operation works on.
    pub closed spec fn spec_driver(&self) -> Driver {
        self.driver
    }

    /// The delay the operation waits on.
    pub closed spec fn spec_delay(&self) -> Del {
        self.delay
    }

    /// The machine's current phase.
    pub closed spec fn spec_state(&self) -> SetDirectionState {
        self.state
    }

    /// The driver as it was when the machine was created.
    pub closed spec fn spec_init(&self) -> Driver {
        self.init@
    }

    /// Phases left until completion; the busy-poll measure.
    pub open spec fn spec_rank(&self) -> nat {
        match self.spec_state() {
            SetDirectionState::Initial => 2,
            SetDirectionState::DirectionSet => 1,
            SetDirectionState::Finished => 0,
        }
    }

    /// What each phase says about the driver: the direction action is
    /// issued exactly once, when the machine leaves `Initial`.
    pub open spec fn inv(&self) -> bool {
        match self.spec_state() {
            SetDirectionState::Initial => self.spec_driver() == self.spec_init(),
            SetDirectionState::DirectionSet => Driver::dir_rel(
                self.spec_init(),
                self.spec_driver(),
                self.spec_direction(),
                self.spec_init().spec_dir_action(self.spec_direction()),
            ),
            SetDirectionState::Finished => Driver::dir_rel(
                self.spec_init(),
                self.spec_driver(),
                self.spec_direction(),
                self.spec_init().spec_dir_action(self.spec_direction()),
            ),
        }
    }

    /// Create a new instance of `SetDirectionFuture`, taking ownership of
    /// the driver and the delay until the operation completes.
    pub fn new(direction: Direction, driver: Driver, delay: Del) -> (r: SetDirectionFuture<
        Driver,
        Del,
    >)
        ensures
            r.spec_direction() == direction,
            r.spec_driver() == driver,
            r.spec_delay() == delay,
            r.spec_state() is Initial,
            r.spec_init() == driver,
            r.inv(),
    {
        let ghost initial = driver;
        SetDirectionFuture {
            direction,
            driver,
            delay,
            state: SetDirectionState::Initial,
            init: Ghost(initial),
        }
    }

    /// Drop the machine and release the resources that were moved into
    /// it, in whatever state the last completed phase left them.
    pub fn release(self) -> (r: (Driver, Del))
        ensures
            r.0 == self.spec_driver(),
            r.1 == self.spec_delay(),
    {
        (self.driver, self.delay)
    }
}

impl<Driver: SetDirection, Del: Delay> LegacyFuture for SetDirectionFuture<Driver, Del> {
    type DriverError = ();

    type TimerError = ();

    type FutureOutput = Result<(), SignalError<(), (), ()>>;

    /// Advance the machine by at most one phase.
    ///
    /// Leaving `Initial`, the driver's direction action is issued and a
    /// wait for the driver's setup time, in whole microseconds, begins; a
    /// timer fault finishes the machine with a timer error. Once the wait
    /// has elapsed the machine finishes successfully, and every further
    /// poll reports completion immediately.
    fn poll(&mut self) -> (r: Poll<Result<(), SignalError<(), (), ()>>>)
        ensures
            final(self).spec_direction() == old(self).spec_direction(),
            final(self).spec_init() == old(self).spec_init(),
            old(self).inv() ==> final(self).inv(),
            r is Pending ==> final(self).spec_rank() < old(self).spec_rank()
                || (final(self).spec_rank() == old(self).spec_rank()
                    && final(self).spec_delay().spec_fuel() < old(self).spec_delay().spec_fuel()),
            old(self).spec_state() is Initial ==> Driver::dir_rel(
                old(self).spec_driver(),
                final(self).spec_driver(),
                old(self).spec_direction(),
                old(self).spec_driver().spec_dir_action(old(self).spec_direction()),
            )
                && ((final(self).spec_state() is DirectionSet && r is Pending
                    && final(self).spec_delay().spec_pending()
                        == Some(final(self).spec_driver().spec_setup_time() / 1000))
                || (final(self).spec_state() is Finished
                    && r == Poll::Ready(Err::<(), SignalError<(), (), ()>>(SignalError::Timer(()))))),
            old(self).spec_state() is DirectionSet ==> final(self).spec_driver()
                == old(self).spec_driver()
                && ((r is Pending && final(self).spec_state() is DirectionSet)
                || (final(self).spec_state() is Finished
                    && (r == Poll::Ready(Ok::<(), SignalError<(), (), ()>>(()))
                    || r == Poll::Ready(Err::<(), SignalError<(), (), ()>>(SignalError::Timer(())))))),
            old(self).spec_state() is Finished ==> r == Poll::Ready(
                Ok::<(), SignalError<(), (), ()>>(()),
            ) && *final(self) == *old(self),
    {
        match self.state {
            SetDirectionState::Initial => {
                let action = self.driver.dir(self.direction);
                match action {
                    Ok(_) => {},
                    Err(_) => {
                        // The contract of `dir` rules this arm out.
                        self.state = SetDirectionState::Finished;
                        return Poll::Ready(Err(SignalError::PinUnavailable(())));
                    },
                }
                let setup_time = self.driver.setup_time();
                match self.delay.start(setup_time.to_micros()) {
                    Ok(_) => {
                        self.state = SetDirectionState::DirectionSet;
                        Poll::Pending
                    },
                    Err(_) => {
                        self.state = SetDirectionState::Finished;
                        Poll::Ready(Err(SignalError::Timer(())))
                    },
                }
            },
            SetDirectionState::DirectionSet => {
                match self.delay.poll_elapsed() {
                    Poll::Pending => Poll::Pending,
                    Poll::Ready(Ok(_)) => {
                        self.state = SetDirectionState::Finished;
                        Poll::Ready(Ok(()))
                    },
                    Poll::Ready(Err(_)) => {
                        self.state = SetDirectionState::Finished;
                        Poll::Ready(Err(SignalError::Timer(())))
                    },
                }
            },
            SetDirectionState::Finished => Poll::Ready(Ok(())),
        }
    }

    /// Busy-poll until the operation completes.
    fn wait(&mut self) -> (r: Result<(), SignalError<(), (), ()>>)
        ensures
            final(self).spec_state() is Finished,
            final(self).spec_direction() == old(self).spec_direction(),
            final(self).spec_init() == old(self).spec_init(),
            old(self).inv() ==> final(self).inv(),
    {
        loop
            invariant
                self.spec_direction() == old(self).spec_direction(),
                self.spec_init() == old(self).spec_init(),
                old(self).inv() ==> self.inv(),
            decreases self.spec_rank(), self.spec_delay().spec_fuel(),
        {
            match self.poll() {
                Poll::Ready(result) => {
                    return result;
                },
                Poll::Pending => {},
            }
        }
    }
}

} // verus!
