//! A handle-based GUI toolkit core: a registry that maps application
//! identifiers to tagged native handles, and the protocol by which a control
//! template becomes a live control and a live control is destroyed.
//!
//! The library never talks to the windowing system itself. Every native
//! operation is handed to the caller as a plain value (a request), and the
//! outcome comes back as a plain value (a reply).

pub mod controls;
pub mod error;
pub mod events;
pub mod low;
pub mod ui;
