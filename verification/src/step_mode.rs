//! Microstepping resolutions.

use vstd::prelude::*;

verus! {

/// Microstepping resolution of a driver that subdivides a full step into
/// up to 256 equal sub-steps.
#[derive(Clone, Copy, PartialEq, Eq, Structural, Debug)]
pub enum StepMode256 {
    /// Full steps
    Full,
    /// 2 sub-steps per full step
    M2,
    /// 4 sub-steps per full step
    M4,
    /// 8 sub-steps per full step
    M8,
    /// 16 sub-steps per full step
    M16,
    /// 32 sub-steps per full step
    M32,
    /// 64 sub-steps per full step
    M64,
    /// 128 sub-steps per full step
    M128,
    /// 256 sub-steps per full step
    M256,
}

} // verus!
