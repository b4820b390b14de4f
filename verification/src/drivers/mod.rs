//! Parent module for all driver implementations.
//!
//! Each sub-module provides one driver: two STEP/DIR chip adapters and a
//! fully generic multi-line signal sequencer.

pub mod dq542ma;
pub mod generic;
pub mod stspin220;
