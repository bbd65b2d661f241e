//! Commands for, and live status of, the hardware worker.

use vstd::prelude::*;

verus! {

/// Tasks handed to the hardware worker, consumed strictly in the order in
/// which they were queued.
#[derive(Debug, Clone, Copy, PartialEq, Eq, Structural)]
pub enum HWCmd {
    /// Disable control over the hardware.
    EndControl,
    /// Enable control over the hardware.
    StartControl,
    /// Write the current code to the hardware.
    Program,
    /// Start a new run; the flag says whether it starts paused.
    StartRun(bool),
    /// Execute a single step.
    ExecStep,
    /// Reset the interpreter.
    Reset,
}

/// Live hardware conditions, set only by the hardware worker, to show when
/// the hardware is waiting for input or has output ready.
#[derive(Debug, Clone, Copy, PartialEq, Eq, Structural)]
pub enum HWState {
    Regular,
    WaitInput,
    OutputReady,
}

} // verus!
