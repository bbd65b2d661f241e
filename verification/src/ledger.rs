//! Per-field last-change bookkeeping.

use vstd::prelude::*;

verus! {

/// The timestamp of the last update of each mutable field of the
/// coordinator. Callers supply the current time with every write; the
/// ledger itself never reads a clock.
#[derive(Debug, Clone, Copy, PartialEq, Eq, Structural)]
pub struct ChangeTimes {
    pub speed: u64,
    pub code: u64,
    pub input: u64,
    pub output: u64,
    pub state: u64,
}

impl ChangeTimes {
    /// A fresh ledger with every entry set to the given time.
    pub fn new(now: u64) -> (r: ChangeTimes)
        ensures
            r == (ChangeTimes { speed: now, code: now, input: now, output: now, state: now }),
    {
        ChangeTimes { speed: now, code: now, input: now, output: now, state: now }
    }
}

} // verus!
