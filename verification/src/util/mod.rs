//! Utility module for miscellaneous pieces the rest of the crate needs.

pub mod delay;
