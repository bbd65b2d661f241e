//! Typed rejections of invalid requests. Each is terminal and recoverable:
//! the request is refused, no state changes, and the caller may retry.

use vstd::prelude::*;

verus! {

/// The reasons a request can be rejected.
#[derive(Debug, Clone, Copy, PartialEq, Eq, Structural)]
pub enum BFError {
    /// Tried to change code while the interpreter is starting or running.
    CodeChanged,
    /// Tried to change already-consumed input during a run.
    InputChanged,
    /// The code's brackets are not correctly nested.
    InvalidNesting,
    /// Tried to apply control while control is disabled.
    ItpUncontrolled,
    /// The interpreter is already running.
    ItpRunning,
    /// The interpreter is not running.
    ItpNotRunning,
    /// Still waiting for startup to finish.
    StillStarting,
}

/// The outcome of a mutation request.
pub type BFRes = Result<(), BFError>;

} // verus!
