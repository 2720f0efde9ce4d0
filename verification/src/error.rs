//! The errors that the registry and the controls report.

use vstd::prelude::*;
use crate::controls::AnyHandle;

verus! {

/// Why an operation was refused.
#[derive(Clone, Copy, Debug, PartialEq, Eq, Structural)]
pub enum Error {
    /// The identifier or handle is not registered.
    KeyNotFound,
    /// The identifier is already registered.
    DuplicateId,
    /// The parent identifier is not registered, or does not name a window.
    /// With it comes the handle that was found, if one was.
    BadParent(Option<AnyHandle>),
    /// The resource identifier is not registered, or its kind is not the one
    /// that is required. With it comes the handle that was found, if one
    /// was.
    BadResource(Option<AnyHandle>),
    /// The control does not belong to the registry that was given.
    BadUi,
    /// A native call failed; the platform's error code is kept as it came.
    System(u32),
}

} // verus!
