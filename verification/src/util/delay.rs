//! Timed waiting.
//!
//! The platform supplies time in one of two forms: a countdown [`Timer`]
//! that is started and then polled until it reports that the duration has
//! elapsed, or a [`Delay`], the same idea expressed directly as a pollable
//! wait. [`AsyncDelay`] turns any timer into a delay.
//!
//! Neither trait promises anything about real time: the contracts only
//! track which wait is outstanding, and what each poll outcome means for
//! it. A timer that never signals completion stalls its state machine
//! indefinitely; there is no timeout beyond the requested duration.

use vstd::prelude::*;

use crate::Poll;

verus! {

/// Outcome of polling a countdown timer.
#[derive(Clone, Copy, PartialEq, Eq, Structural, Debug)]
pub enum TimerWait {
    /// The started duration has elapsed
    Elapsed,
    /// The started duration has not elapsed yet
    NotYet,
    /// The timer failed; the countdown is abandoned
    Fault,
}

/// A countdown timer supplied by the embedding platform.
///
/// `spec_fuel` is a progress measure: every `NotYet` answer strictly
/// decreases it, so a countdown can only be polled finitely often before
/// it resolves. Blocking helpers rely on this to terminate.
pub trait Timer: Sized {
    /// The duration, in microseconds, of the countdown currently running.
    ///
    /// Implementations outside the verifier inherit the default, which
    /// leaves the value unspecified.
    open spec fn spec_running(&self) -> Option<u32> {
        vstd::pervasive::arbitrary()
    }

    /// Progress measure: an upper bound on the `NotYet` answers left
    open spec fn spec_fuel(&self) -> nat {
        vstd::pervasive::arbitrary()
    }

    /// Start a countdown for the given number of microseconds.
    fn start(&mut self, duration_us: u32) -> (r: Result<(), ()>)
        ensures
            r is Ok ==> final(self).spec_running() == Some(duration_us),
    ;

    /// Check whether the running countdown has elapsed.
    fn wait(&mut self) -> (r: TimerWait)
        ensures
            r is NotYet ==> final(self).spec_running() == old(self).spec_running()
                && final(self).spec_fuel() < old(self).spec_fuel(),
            r is Elapsed ==> final(self).spec_running() is None,
            r is Fault ==> final(self).spec_running() is None,
    ;
}

/// A pollable wait for a duration, supplied by the embedding platform or
/// built from a [`Timer`] via [`AsyncDelay`].
pub trait Delay: Sized {
    /// The duration, in microseconds, of the wait currently outstanding.
    ///
    /// Implementations outside the verifier inherit the default, which
    /// leaves the value unspecified.
    open spec fn spec_pending(&self) -> Option<u32> {
        vstd::pervasive::arbitrary()
    }

    /// Progress measure: an upper bound on the `Pending` answers left
    open spec fn spec_fuel(&self) -> nat {
        vstd::pervasive::arbitrary()
    }

    /// Begin a wait for the given number of microseconds.
    fn start(&mut self, us: u32) -> (r: Result<(), ()>)
        ensures
            r is Ok ==> final(self).spec_pending() == Some(us),
    ;

    /// Check whether the outstanding wait has elapsed.
    ///
    /// `Ready(Ok(()))` reports that the duration has elapsed;
    /// `Ready(Err(()))` that the underlying time source failed. Either way
    /// the wait is over.
    fn poll_elapsed(&mut self) -> (r: Poll<Result<(), ()>>)
        ensures
            r is Pending ==> final(self).spec_pending() == old(self).spec_pending()
                && final(self).spec_fuel() < old(self).spec_fuel(),
            r is Ready ==> final(self).spec_pending() is None,
    ;
}

/// Busy-poll a delay until a wait of `us` microseconds has elapsed.
///
/// This is the blocking execution strategy over the same pollable wait
/// that the cooperative state machines use.
pub fn delay_wait<D: Delay>(delay: &mut D, us: u32) -> (r: Result<(), ()>)
    ensures
        r is Ok ==> final(delay).spec_pending() is None,
{
    match delay.start(us) {
        Err(_) => {
            return Err(());
        },
        Ok(_) => {},
    }
    loop
        decreases delay.spec_fuel(),
    {
        match delay.poll_elapsed() {
            Poll::Ready(Ok(_)) => {
                return Ok(());
            },
            Poll::Ready(Err(_)) => {
                return Err(());
            },
            Poll::Pending => {},
        }
    }
}

/// Wraps a [`Timer`] to provide [`Delay`] functionality.
///
/// The `TIMER_HZ` parameter names the tick rate of the wrapped timer; the
/// trait contracts speak in microseconds throughout.
pub struct AsyncDelay<T, const TIMER_HZ: u32> {
    _timer: T,
}

impl<T: Timer, const TIMER_HZ: u32> AsyncDelay<T, TIMER_HZ> {
    /// The wrapped timer.
    pub closed spec fn spec_timer(&self) -> T {
        self._timer
    }

    /// Assume ownership of a timer, exposing it as a delay.
    pub fn from_timer(timer: T) -> (r: AsyncDelay<T, TIMER_HZ>)
        ensures
            r.spec_timer() == timer,
    {
        AsyncDelay::<T, TIMER_HZ> { _timer: timer }
    }

    /// Wait for the given number of microseconds, busy-polling the timer.
    pub fn delay_us(&mut self, us: u32) -> (r: Result<(), ()>)
        ensures
            r is Ok ==> final(self).spec_timer().spec_running() is None,
    {
        delay_wait(self, us)
    }

    /// Wait for the given number of milliseconds, busy-polling the timer.
    pub fn delay_ms(&mut self, ms: u32) -> (r: Result<(), ()>)
        requires
            ms <= 4_294_967,
        ensures
            r is Ok ==> final(self).spec_timer().spec_running() is None,
    {
        delay_wait(self, ms * 1000)
    }
}

impl<T: Timer, const TIMER_HZ: u32> Delay for AsyncDelay<T, TIMER_HZ> {
    open spec fn spec_pending(&self) -> Option<u32> {
        self.spec_timer().spec_running()
    }

    open spec fn spec_fuel(&self) -> nat {
        self.spec_timer().spec_fuel()
    }

    fn start(&mut self, us: u32) -> (r: Result<(), ()>) {
        self._timer.start(us)
    }

    fn poll_elapsed(&mut self) -> (r: Poll<Result<(), ()>>) {
        match self._timer.wait() {
            TimerWait::Elapsed => Poll::Ready(Ok(())),
            TimerWait::NotYet => Poll::Pending,
            TimerWait::Fault => Poll::Ready(Err(())),
        }
    }
}

} // verus!
