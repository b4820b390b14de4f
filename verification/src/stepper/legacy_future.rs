//! The polling contract shared by all signal state machines.

use vstd::prelude::*;

use crate::Poll;

verus! {

/// A cooperative operation driven by explicit polling.
///
/// `poll` advances the operation by at most one phase and reports
/// whether it has finished; `wait` busy-polls until it has. The precise
/// transition contracts live on each implementing machine, which is also
/// where each `wait` proves that its busy-polling terminates against the
/// progress promised by its timer.
pub trait LegacyFuture: Sized {
    /// Error reported by the driver the operation works on
    type DriverError;

    /// Error reported by the timer the operation waits on
    type TimerError;

    /// What the operation yields once it completes
    type FutureOutput;

    /// Advance the operation by at most one phase.
    fn poll(&mut self) -> Poll<Self::FutureOutput>;

    /// Busy-poll until the operation completes.
    fn wait(&mut self) -> Self::FutureOutput;
}

/// Wrapper that carries a [`LegacyFuture`] unchanged.
///
/// The embedding platform can drive the wrapped machine through this
/// value and take it back out once it is done.
pub struct WrappedLegacyFuture<Fut> {
    future: Fut,
}

impl<Fut> WrappedLegacyFuture<Fut> {
    /// The wrapped machine.
    pub closed spec fn spec_future(&self) -> Fut {
        self.future
    }

    /// Wrap a machine.
    pub fn new(future: Fut) -> (r: WrappedLegacyFuture<Fut>)
        ensures
            r.spec_future() == future,
    {
        WrappedLegacyFuture { future }
    }

    /// Take the wrapped machine back out.
    pub fn wrapped_future(self) -> (r: Fut)
        ensures
            r == self.spec_future(),
    {
        self.future
    }
}

impl<Fut: LegacyFuture> WrappedLegacyFuture<Fut> {
    /// Advance the wrapped machine by at most one phase.
    ///
    /// The transition contract is the wrapped machine's own.
    pub fn poll(&mut self) -> Poll<Fut::FutureOutput> {
        self.future.poll()
    }
}

/// Wrapper that carries a [`LegacyFuture`] together with phantom driver
/// and timer types, for callers that need to name them.
pub struct WrappedLegacyFuture3<Driver, Timer, Fut> {
    future: Fut,
    _marker_timer: core::marker::PhantomData<Timer>,
    _marker_driver: core::marker::PhantomData<Driver>,
}

impl<Driver, Timer, Fut: LegacyFuture> WrappedLegacyFuture3<Driver, Timer, Fut> {
    /// The wrapped machine.
    pub closed spec fn spec_future(&self) -> Fut {
        self.future
    }

    /// Wrap a machine.
    pub fn new(future: Fut) -> (r: WrappedLegacyFuture<Fut>)
        ensures
            r.spec_future() == future,
    {
        WrappedLegacyFuture { future }
    }

    /// Take the wrapped machine back out.
    pub fn wrapped_future(self) -> (r: Fut)
        ensures
            r == self.spec_future(),
    {
        self.future
    }
}

} // verus!
