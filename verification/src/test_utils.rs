//! Simple timer and delay implementations, mainly useful in tests.

use vstd::prelude::*;

use crate::util::delay::{Delay, Timer, TimerWait};
use crate::Poll;

verus! {

/// A timer whose countdowns elapse on the first poll.
pub struct OkTimer<const TIMER_HZ: u32> {
    running: Option<u32>,
}

impl<const TIMER_HZ: u32> OkTimer<TIMER_HZ> {
    /// Create a new timer with no countdown running.
    pub fn new() -> (r: Self)
        ensures
            r.spec_running() is None,
    {
        OkTimer { running: None }
    }
}

impl<const TIMER_HZ: u32> Timer for OkTimer<TIMER_HZ> {
    closed spec fn spec_running(&self) -> Option<u32> {
        self.running
    }

    closed spec fn spec_fuel(&self) -> nat {
        0
    }

    fn start(&mut self, duration_us: u32) -> (r: Result<(), ()>)
        ensures
            r is Ok,
    {
        self.running = Some(duration_us);
        Ok(())
    }

    fn wait(&mut self) -> (r: TimerWait)
        ensures
            r is Elapsed,
    {
        self.running = None;
        TimerWait::Elapsed
    }
}

/// A delay whose waits elapse on the first poll.
pub struct NoDelay {
    pending: Option<u32>,
}

impl NoDelay {
    /// Create a new delay with no wait outstanding.
    pub fn new() -> (r: Self)
        ensures
            r.spec_pending() is None,
    {
        NoDelay { pending: None }
    }
}

impl Delay for NoDelay {
    closed spec fn spec_pending(&self) -> Option<u32> {
        self.pending
    }

    closed spec fn spec_fuel(&self) -> nat {
        0
    }

    fn start(&mut self, us: u32) -> (r: Result<(), ()>)
        ensures
            r is Ok,
    {
        self.pending = Some(us);
        Ok(())
    }

    fn poll_elapsed(&mut self) -> (r: Poll<Result<(), ()>>)
        ensures
            r == Poll::Ready(Ok::<(), ()>(())),
    {
        self.pending = None;
        Poll::Ready(Ok(()))
    }
}

} // verus!
