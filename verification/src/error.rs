//! The ways in which a request can be turned down.

use vstd::prelude::*;

verus! {

/// Why an operation left the state as it was.
#[derive(Clone, Copy, Debug, PartialEq, Eq, Structural)]
pub enum AppError {
    /// The list holds no task to act on.
    EmptyListAccess,
    /// The draft has no name once the white space around it is gone.
    InvalidDraft,
}

} // verus!
