//! Cooperative state machines for the timed signal operations.
//!
//! Each timed operation — set a direction, set a microstepping mode,
//! fire one step pulse, run a position move — is an explicit state
//! machine that issues a pin action, then waits on a timer for the
//! mandated duration, then issues the trailing action, if any. The
//! machines are driven by [`LegacyFuture::poll`]; a caller may busy-poll
//! them with [`LegacyFuture::wait`] or park between polls.

pub mod legacy_future;
pub mod move_to;
pub mod set_direction;
pub mod set_step_mode;
pub mod step;
