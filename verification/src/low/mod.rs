//! The decisions behind the window primitives.

pub mod defs;
pub mod window_helper;
