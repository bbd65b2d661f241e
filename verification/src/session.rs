//! The coordinator's model of one interpreter session.
//!
//! The execution engine itself is an external collaborator; the coordinator
//! sees a session only through this interface: the code and input snapshot
//! it was created from, and how many input bytes it has consumed so far.

use vstd::prelude::*;

use crate::bytes::copy_bytes;
use crate::nesting::nesting_ok;

verus! {

/// One run of the interpreter: a code/input snapshot plus the count of
/// input bytes consumed so far. The engine advances `ic` as it reads input;
/// the coordinator rewrites `inp` when a permitted input change arrives.
#[derive(Debug)]
pub struct Run {
    /// The program the session executes.
    pub code: Vec<u8>,
    /// The session's own input buffer.
    pub inp: Vec<u8>,
    /// How many bytes of `inp` the session has consumed.
    pub ic: usize,
}

impl Run {
    /// A fresh session over a snapshot of the given code and input.
    /// The code must already have been validated: construction cannot fail.
    pub fn new(code: &Vec<u8>, inp: &Vec<u8>) -> (r: Run)
        requires
            nesting_ok(code@),
        ensures
            r.code@ == code@,
            r.inp@ == inp@,
            r.ic == 0,
    {
        Run { code: copy_bytes(code), inp: copy_bytes(inp), ic: 0 }
    }

    /// A copy of the session's observable progress, for state snapshots.
    pub fn snapshot(&self) -> (r: Run)
        ensures
            r.code@ == self.code@,
            r.inp@ == self.inp@,
            r.ic == self.ic,
    {
        Run { code: copy_bytes(&self.code), inp: copy_bytes(&self.inp), ic: self.ic }
    }
}

} // verus!
