//! The state machine behind setting a driver's microstepping mode.

use vstd::prelude::*;

use crate::stepper::legacy_future::LegacyFuture;
use crate::traits::SetStepMode;
use crate::util::delay::Delay;
use crate::Poll;
use crate::SignalError;

verus! {

/// Phase of a [`SetStepModeFuture`].
#[derive(Clone, Copy, PartialEq, Eq, Structural, Debug)]
pub enum SetStepModeState {
    /// The mode configuration has not been applied yet
    Initial,
    /// The mode pins are set; the setup time is counting down
    ApplyingConfig,
    /// The driver is re-enabled; the hold time is counting down
    EnablingDriver,
    /// The operation is complete
    Finished,
}

/// The state machine behind setting a driver's microstepping mode.
///
/// Leaving `Initial`, the machine applies the mode configuration, which
/// holds the driver in standby with the mode pins set, and waits for the
/// driver's setup time. Once that has elapsed it re-enables the driver
/// and waits for the hold time; once that has elapsed too, the machine is
/// finished. This matches the chip's required reset, configure, release
/// sequence. Further polls of a finished machine report completion
/// immediately.
pub struct SetStepModeFuture<Driver: SetStepMode, Del> {
    step_mode: Driver::StepMode,
    driver: Driver,
    delay: Del,
    state: SetStepModeState,
    init: Ghost<Driver>,
    mid: Ghost<Driver>,
}

impl<Driver: SetStepMode, Del: Delay> SetStepModeFuture<Driver, Del> {
    /// The mode being selected.
    pub closed spec fn spec_step_mode(&self) -> Driver::StepMode {
        self.step_mode
    }

    /// The driver the operation works on.
    pub closed spec fn spec_driver(&self) -> Driver {
        self.driver
    }

    /// The delay the operation waits on.
    pub closed spec fn spec_delay(&self) -> Del {
        self.delay
    }

    /// The machine's current phase.
    pub closed spec fn spec_state(&self) -> SetStepModeState {
        self.state
    }

    /// The driver as it was when the machine was created.
    pub closed spec fn spec_init(&self) -> Driver {
        self.init@
    }

    /// The driver as it was right after the mode configuration was
    /// applied.
    pub closed spec fn spec_mid(&self) -> Driver {
        self.mid@
    }

    /// Phases left until completion; the busy-poll measure.
    pub open spec fn spec_rank(&self) -> nat {
        match self.spec_state() {
            SetStepModeState::Initial => 3,
            SetStepModeState::ApplyingConfig => 2,
            SetStepModeState::EnablingDriver => 1,
            SetStepModeState::Finished => 0,
        }
    }

    /// What each phase says about the driver: the mode configuration is
    /// applied exactly once, when the machine leaves `Initial`, and the
    /// driver is re-enabled exactly once, when the setup wait elapses.
    pub open spec fn inv(&self) -> bool {
        match self.spec_state() {
            SetStepModeState::Initial => self.spec_driver() == self.spec_init(),
            SetStepModeState::ApplyingConfig => Driver::apply_rel(
                self.spec_init(),
                self.spec_driver(),
                self.spec_step_mode(),
            ) && self.spec_mid() == self.spec_driver(),
            SetStepModeState::EnablingDriver => Driver::apply_rel(
                self.spec_init(),
                self.spec_mid(),
                self.spec_step_mode(),
            ) && Driver::enable_rel(self.spec_mid(), self.spec_driver()),
            SetStepModeState::Finished => Driver::apply_rel(
                self.spec_init(),
                self.spec_mid(),
                self.spec_step_mode(),
            ) && (self.spec_driver() == self.spec_mid() || Driver::enable_rel(
                self.spec_mid(),
                self.spec_driver(),
            )),
        }
    }

    /// Create a new instance of `SetStepModeFuture`, taking ownership of
    /// the driver and the delay until the operation completes.
    pub fn new(step_mode: Driver::StepMode, driver: Driver, delay: Del) -> (r: SetStepModeFuture<
        Driver,
        Del,
    >)
        ensures
            r.spec_step_mode() == step_mode,
            r.spec_driver() == driver,
            r.spec_delay() == delay,
            r.spec_state() is Initial,
            r.spec_init() == driver,
            r.inv(),
    {
        let ghost initial = driver;
        SetStepModeFuture {
            step_mode,
            driver,
            delay,
            state: SetStepModeState::Initial,
            init: Ghost(initial),
            mid: Ghost(initial),
        }
    }

    /// Drop the machine and release the resources that were moved into
    /// it, in whatever state the last completed phase left them.
    pub fn release(self) -> (r: (Driver, Del))
        ensures
            r.0 == self.spec_driver(),
            r.1 == self.spec_delay(),
    {
        (self.driver, self.delay)
    }
}

impl<Driver: SetStepMode, Del: Delay> LegacyFuture for SetStepModeFuture<Driver, Del> {
    type DriverError = ();

    type TimerError = ();

    type FutureOutput = Result<(), SignalError<(), (), ()>>;

    /// Advance the machine by at most one phase.
    ///
    /// Each wait is for the respective driver time in whole microseconds;
    /// a timer fault finishes the machine with a timer error.
    fn poll(&mut self) -> (r: Poll<Result<(), SignalError<(), (), ()>>>)
        ensures
            final(self).spec_step_mode() == old(self).spec_step_mode(),
            final(self).spec_init() == old(self).spec_init(),
            old(self).inv() ==> final(self).inv(),
            r is Pending ==> final(self).spec_rank() < old(self).spec_rank()
                || (final(self).spec_rank() == old(self).spec_rank()
                    && final(self).spec_delay().spec_fuel() < old(self).spec_delay().spec_fuel()),
            old(self).spec_state() is Initial ==> Driver::apply_rel(
                old(self).spec_driver(),
                final(self).spec_driver(),
                old(self).spec_step_mode(),
            )
                && ((final(self).spec_state() is ApplyingConfig && r is Pending
                    && final(self).spec_delay().spec_pending()
                        == Some(final(self).spec_driver().spec_setup_time() / 1000))
                || (final(self).spec_state() is Finished
                    && r == Poll::Ready(Err::<(), SignalError<(), (), ()>>(SignalError::Timer(()))))),
            old(self).spec_state() is ApplyingConfig ==> ((r is Pending
                && final(self).spec_state() is ApplyingConfig
                && final(self).spec_driver() == old(self).spec_driver())
                || (final(self).spec_state() is EnablingDriver && r is Pending
                    && Driver::enable_rel(old(self).spec_driver(), final(self).spec_driver())
                    && final(self).spec_delay().spec_pending()
                        == Some(final(self).spec_driver().spec_hold_time() / 1000))
                || (final(self).spec_state() is Finished
                    && r == Poll::Ready(Err::<(), SignalError<(), (), ()>>(SignalError::Timer(())))
                    && (final(self).spec_driver() == old(self).spec_driver() || Driver::enable_rel(
                        old(self).spec_driver(),
                        final(self).spec_driver(),
                    )))),
            old(self).spec_state() is EnablingDriver ==> final(self).spec_driver()
                == old(self).spec_driver()
                && ((r is Pending && final(self).spec_state() is EnablingDriver)
                || (final(self).spec_state() is Finished
                    && (r == Poll::Ready(Ok::<(), SignalError<(), (), ()>>(()))
                    || r == Poll::Ready(Err::<(), SignalError<(), (), ()>>(SignalError::Timer(())))))),
            old(self).spec_state() is Finished ==> r == Poll::Ready(
                Ok::<(), SignalError<(), (), ()>>(()),
            ) && *final(self) == *old(self),
    {
        match self.state {
            SetStepModeState::Initial => {
                match self.driver.apply_mode_config(self.step_mode) {
                    Ok(_) => {},
                    Err(_) => {
                        // The contract of `apply_mode_config` rules this
                        // arm out.
                        self.state = SetStepModeState::Finished;
                        proof {
                            self.mid@ = self.driver;
                        }
                        return Poll::Ready(Err(SignalError::Pin(())));
                    },
                }
                proof {
                    self.mid@ = self.driver;
                }
                let setup_time = self.driver.setup_time();
                match self.delay.start(setup_time.to_micros()) {
                    Ok(_) => {
                        self.state = SetStepModeState::ApplyingConfig;
                        Poll::Pending
                    },
                    Err(_) => {
                        self.state = SetStepModeState::Finished;
                        Poll::Ready(Err(SignalError::Timer(())))
                    },
                }
            },
            SetStepModeState::ApplyingConfig => {
                match self.delay.poll_elapsed() {
                    Poll::Pending => Poll::Pending,
                    Poll::Ready(Ok(_)) => {
                        match self.driver.enable_driver() {
                            Ok(_) => {},
                            Err(_) => {
                                // The contract of `enable_driver` rules
                                // this arm out.
                                self.state = SetStepModeState::Finished;
                                return Poll::Ready(Err(SignalError::Pin(())));
                            },
                        }
                        let hold_time = self.driver.hold_time();
                        match self.delay.start(hold_time.to_micros()) {
                            Ok(_) => {
                                self.state = SetStepModeState::EnablingDriver;
                                Poll::Pending
                            },
                            Err(_) => {
                                self.state = SetStepModeState::Finished;
                                Poll::Ready(Err(SignalError::Timer(())))
                            },
                        }
                    },
                    Poll::Ready(Err(_)) => {
                        self.state = SetStepModeState::Finished;
                        Poll::Ready(Err(SignalError::Timer(())))
                    },
                }
            },
            SetStepModeState::EnablingDriver => {
                match self.delay.poll_elapsed() {
                    Poll::Pending => Poll::Pending,
                    Poll::Ready(Ok(_)) => {
                        self.state = SetStepModeState::Finished;
                        Poll::Ready(Ok(()))
                    },
                    Poll::Ready(Err(_)) => {
                        self.state = SetStepModeState::Finished;
                        Poll::Ready(Err(SignalError::Timer(())))
                    },
                }
            },
            SetStepModeState::Finished => Poll::Ready(Ok(())),
        }
    }

    /// Busy-poll until the operation completes.
    fn wait(&mut self) -> (r: Result<(), SignalError<(), (), ()>>)
        ensures
            final(self).spec_state() is Finished,
            final(self).spec_step_mode() == old(self).spec_step_mode(),
            final(self).spec_init() == old(self).spec_init(),
            old(self).inv() ==> final(self).inv(),
    {
        loop
            invariant
                self.spec_step_mode() == old(self).spec_step_mode(),
                self.spec_init() == old(self).spec_init(),
                old(self).inv() ==> self.inv(),
            decreases self.spec_rank(), self.spec_delay().spec_fuel(),
        {
            match self.poll() {
                Poll::Ready(result) => {
                    return result;
                },
                Poll::Pending => {},
            }
        }
    }
}

} // verus!
