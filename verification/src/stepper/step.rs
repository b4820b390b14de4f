//! The state machine behind one step pulse.

use vstd::prelude::*;

use crate::pin::{Level, OutPin};
use crate::stepper::legacy_future::LegacyFuture;
use crate::traits::Step;
use crate::util::delay::{delay_wait, Delay};
use crate::Nanoseconds;
use crate::Poll;
use crate::SignalError;

verus! {

/// Phase of a [`StepFuture`].
#[derive(Clone, Copy, PartialEq, Eq, Structural, Debug)]
pub enum StepState {
    /// The leading edge has not been issued yet
    Initial,
    /// The leading edge is issued; the pulse length is counting down
    PulseStarted,
    /// The operation is complete
    Finished,
}

/// The state machine behind one step pulse.
///
/// Leaving `Initial`, the machine issues the driver's leading edge on
/// every bus line and waits for the driver's pulse length; once the wait
/// elapses it issues the trailing edge and is finished. The inter-step
/// interval is the caller's responsibility, driven by how frequently
/// steps are requested. Further polls of a finished machine report
/// completion immediately.
pub struct StepFuture<Driver, Del> {
    driver: Driver,
    delay: Del,
    state: StepState,
    init: Ghost<Driver>,
    mid: Ghost<Driver>,
}

impl<Driver: Step, Del: Delay> StepFuture<Driver, Del> {
    /// The driver the operation works on.
    pub closed spec fn spec_driver(&self) -> Driver {
        self.driver
    }

    /// The delay the operation waits on.
    pub closed spec fn spec_delay(&self) -> Del {
        self.delay
    }

    /// The machine's current phase.
    pub closed spec fn spec_state(&self) -> StepState {
        self.state
    }

    /// The driver as it was when the machine was created.
    pub closed spec fn spec_init(&self) -> Driver {
        self.init@
    }

    /// The driver as it was right after the leading edge.
    pub closed spec fn spec_mid(&self) -> Driver {
        self.mid@
    }

    /// Phases left until completion; the busy-poll measure.
    pub open spec fn spec_rank(&self) -> nat {
        match self.spec_state() {
            StepState::Initial => 2,
            StepState::PulseStarted => 1,
            StepState::Finished => 0,
        }
    }

    /// What each phase says about the driver: the leading edge is issued
    /// exactly once, when the machine leaves `Initial`, and the trailing
    /// edge exactly once, when the pulse wait elapses.
    pub open spec fn inv(&self) -> bool {
        match self.spec_state() {
            StepState::Initial => self.spec_driver() == self.spec_init(),
            StepState::PulseStarted => Driver::leading_rel(
                self.spec_init(),
                self.spec_driver(),
                self.spec_init().spec_leading_actions(),
            ) && self.spec_mid() == self.spec_driver(),
            StepState::Finished => self.spec_driver() == self.spec_init() || (Driver::leading_rel(
                self.spec_init(),
                self.spec_mid(),
                self.spec_init().spec_leading_actions(),
            ) && (self.spec_driver() == self.spec_mid() || Driver::trailing_rel(
                self.spec_mid(),
                self.spec_driver(),
                self.spec_mid().spec_trailing_actions(),
            ))),
        }
    }

    /// Create a new instance of `StepFuture`, taking ownership of the
    /// driver and the delay until the operation completes.
    pub fn new(driver: Driver, delay: Del) -> (r: StepFuture<Driver, Del>)
        ensures
            r.spec_driver() == driver,
            r.spec_delay() == delay,
            r.spec_state() is Initial,
            r.spec_init() == driver,
            r.inv(),
    {
        let ghost initial = driver;
        StepFuture { driver, delay, state: StepState::Initial, init: Ghost(initial), mid: Ghost(initial) }
    }

    /// Drop the machine and release the resources that were moved into
    /// it, in whatever state the last completed phase left them.
    pub fn release(self) -> (r: (Driver, Del))
        ensures
            r.0 == self.spec_driver(),
            r.1 == self.spec_delay(),
    {
        (self.driver, self.delay)
    }
}

impl<Driver: Step, Del: Delay> LegacyFuture for StepFuture<Driver, Del> {
    type DriverError = Driver::Error;

    type TimerError = ();

    type FutureOutput = Result<(), SignalError<Driver::Error, (), ()>>;

    /// Advance the machine by at most one phase.
    ///
    /// A driver that cannot step fails the machine with its own error and
    /// no pin is touched; a timer fault fails it with a timer error after
    /// the leading edge has already been issued.
    fn poll(&mut self) -> (r: Poll<Result<(), SignalError<Driver::Error, (), ()>>>)
        ensures
            final(self).spec_init() == old(self).spec_init(),
            old(self).inv() ==> final(self).inv(),
            r is Pending ==> final(self).spec_rank() < old(self).spec_rank()
                || (final(self).spec_rank() == old(self).spec_rank()
                    && final(self).spec_delay().spec_fuel() < old(self).spec_delay().spec_fuel()),
            old(self).spec_state() is Initial && old(self).spec_driver().spec_step_ok()
                ==> Driver::leading_rel(
                old(self).spec_driver(),
                final(self).spec_driver(),
                old(self).spec_driver().spec_leading_actions(),
            )
                && ((final(self).spec_state() is PulseStarted && r is Pending
                    && final(self).spec_delay().spec_pending()
                        == Some(final(self).spec_driver().spec_pulse_length() / 1000))
                || (final(self).spec_state() is Finished
                    && r == Poll::Ready(Err::<(), SignalError<Driver::Error, (), ()>>(
                        SignalError::Timer(()),
                    )))),
            old(self).spec_state() is Initial && !old(self).spec_driver().spec_step_ok()
                ==> final(self).spec_driver() == old(self).spec_driver()
                && final(self).spec_state() is Finished
                && r == Poll::Ready(Err::<(), SignalError<Driver::Error, (), ()>>(
                    SignalError::PinUnavailable(old(self).spec_driver().spec_step_err()),
                )),
            old(self).spec_state() is PulseStarted ==> ((r is Pending
                && final(self).spec_state() is PulseStarted
                && final(self).spec_driver() == old(self).spec_driver())
                || (final(self).spec_state() is Finished
                    && r == Poll::Ready(Ok::<(), SignalError<Driver::Error, (), ()>>(()))
                    && Driver::trailing_rel(
                        old(self).spec_driver(),
                        final(self).spec_driver(),
                        old(self).spec_driver().spec_trailing_actions(),
                    ))
                || (final(self).spec_state() is Finished
                    && r == Poll::Ready(Err::<(), SignalError<Driver::Error, (), ()>>(
                        SignalError::Timer(()),
                    )) && final(self).spec_driver() == old(self).spec_driver())),
            old(self).spec_state() is Finished ==> r == Poll::Ready(
                Ok::<(), SignalError<Driver::Error, (), ()>>(()),
            ) && *final(self) == *old(self),
    {
        match self.state {
            StepState::Initial => {
                match self.driver.step_leading() {
                    Ok(_) => {},
                    Err(e) => {
                        self.state = StepState::Finished;
                        return Poll::Ready(Err(SignalError::PinUnavailable(e)));
                    },
                }
                proof {
                    self.mid@ = self.driver;
                }
                let pulse_length = self.driver.pulse_length();
                match self.delay.start(pulse_length.to_micros()) {
                    Ok(_) => {
                        self.state = StepState::PulseStarted;
                        Poll::Pending
                    },
                    Err(_) => {
                        self.state = StepState::Finished;
                        Poll::Ready(Err(SignalError::Timer(())))
                    },
                }
            },
            StepState::PulseStarted => {
                match self.delay.poll_elapsed() {
                    Poll::Pending => Poll::Pending,
                    Poll::Ready(Ok(_)) => {
                        match self.driver.step_trailing() {
                            Ok(_) => {},
                            Err(_) => {
                                // The contract of `step_trailing` rules
                                // this arm out.
                                self.state = StepState::Finished;
                                return Poll::Ready(Err(SignalError::Timer(())));
                            },
                        }
                        self.state = StepState::Finished;
                        Poll::Ready(Ok(()))
                    },
                    Poll::Ready(Err(_)) => {
                        self.state = StepState::Finished;
                        Poll::Ready(Err(SignalError::Timer(())))
                    },
                }
            },
            StepState::Finished => Poll::Ready(Ok(())),
        }
    }

    /// Busy-poll until the operation completes.
    fn wait(&mut self) -> (r: Result<(), SignalError<Driver::Error, (), ()>>)
        ensures
            final(self).spec_state() is Finished,
            final(self).spec_init() == old(self).spec_init(),
            old(self).inv() ==> final(self).inv(),
    {
        loop
            invariant
                self.spec_init() == old(self).spec_init(),
                old(self).inv() ==> self.inv(),
            decreases self.spec_rank(), self.spec_delay().spec_fuel(),
        {
            match self.poll() {
                Poll::Ready(result) => {
                    return result;
                },
                Poll::Pending => {},
            }
        }
    }
}

/// Drive one pin high, hold it for the given duration, and drive it low
/// again: one full pulse as a blocking call.
///
/// On a timer fault the pin is left high: no automatic rollback is
/// attempted.
pub fn toggle_pin<Del: Delay>(pin: &mut OutPin, duration: Nanoseconds, delay: &mut Del) -> (r:
    Result<(), SignalError<(), (), ()>>)
    ensures
        final(pin).spec_id() == old(pin).spec_id(),
        r is Ok ==> final(pin).spec_writes() == old(pin).spec_writes().push(Level::High).push(
            Level::Low
        ),
        r is Err ==> r == Err::<(), SignalError<(), (), ()>>(SignalError::Timer(()))
            && final(pin).spec_writes() == old(pin).spec_writes().push(Level::High),
{
    pin.set_level(Level::High);
    match delay_wait(delay, duration.to_micros()) {
        Ok(_) => {},
        Err(_) => {
            return Err(SignalError::Timer(()));
        },
    }
    pin.set_level(Level::Low);
    Ok(())
}

/// Drive every pin high, hold them for the given duration, and drive
/// them all low again: one full pulse across a bus as a blocking call.
///
/// On a timer fault the pins are left high: no automatic rollback is
/// attempted.
pub fn toggle_pins<Del: Delay>(pins: &mut Vec<OutPin>, duration: Nanoseconds, delay: &mut Del) -> (r:
    Result<(), SignalError<(), (), ()>>)
    ensures
        final(pins)@.len() == old(pins)@.len(),
        forall|i: int|
            0 <= i < final(pins)@.len() ==> #[trigger] final(pins)@[i].spec_id() == old(
                pins,
            )@[i].spec_id(),
        r is Ok ==> forall|i: int|
            0 <= i < final(pins)@.len() ==> #[trigger] final(pins)@[i].spec_writes() == old(
                pins,
            )@[i].spec_writes().push(Level::High).push(Level::Low),
        r is Err ==> r == Err::<(), SignalError<(), (), ()>>(SignalError::Timer(())) && forall|
            i: int,
        |
            0 <= i < final(pins)@.len() ==> #[trigger] final(pins)@[i].spec_writes() == old(
                pins,
            )@[i].spec_writes().push(Level::High),
{
    let n = pins.len();
    let mut i: usize = 0;
    while i < n
        invariant
            i <= n,
            n == pins@.len(),
            n == old(pins)@.len(),
            forall|j: int| 0 <= j < i ==> #[trigger] pins@[j].spec_id() == old(pins)@[j].spec_id(),
            forall|j: int|
                0 <= j < i ==> #[trigger] pins@[j].spec_writes() == old(pins)@[j].spec_writes().push(
                    Level::High,
                ),
            forall|j: int| i <= j < n ==> #[trigger] pins@[j] == old(pins)@[j],
        decreases n - i,
    {
        let pin = &mut pins[i];
        pin.set_level(Level::High);
        i += 1;
    }
    match delay_wait(delay, duration.to_micros()) {
        Ok(_) => {},
        Err(_) => {
            return Err(SignalError::Timer(()));
        },
    }
    let ghost highs = pins@;
    let mut i: usize = 0;
    while i < n
        invariant
            i <= n,
            n == pins@.len(),
            n == highs.len(),
            forall|j: int| 0 <= j < i ==> #[trigger] pins@[j].spec_id() == highs[j].spec_id(),
            forall|j: int|
                0 <= j < i ==> #[trigger] pins@[j].spec_writes() == highs[j].spec_writes().push(
                    Level::Low,
                ),
            forall|j: int| i <= j < n ==> #[trigger] pins@[j] == highs[j],
        decreases n - i,
    {
        let pin = &mut pins[i];
        pin.set_level(Level::Low);
        i += 1;
    }
    Ok(())
}

} // verus!
