//! Bracket-structure validation for program code.

use vstd::prelude::*;

verus! {

/// The byte value of `[`, the opening bracket of the instruction set.
pub const OPEN_BRACKET: u8 = 91;

/// The byte value of `]`, the closing bracket of the instruction set.
pub const CLOSE_BRACKET: u8 = 93;

/// Holds when the brackets of `s` from position `i` on close correctly,
/// given that `depth` brackets are already open.
pub open spec fn nesting_ok_from(s: Seq<u8>, i: int, depth: int) -> bool
    decreases s.len() - i,
{
    if i >= s.len() {
        depth == 0
    } else if s[i] == OPEN_BRACKET {
        nesting_ok_from(s, i + 1, depth + 1)
    } else if s[i] == CLOSE_BRACKET {
        depth > 0 && nesting_ok_from(s, i + 1, depth - 1)
    } else {
        nesting_ok_from(s, i + 1, depth)
    }
}

/// Holds when every opening bracket of `s` has a matching, correctly
/// ordered closing bracket.
pub open spec fn nesting_ok(s: Seq<u8>) -> bool {
    nesting_ok_from(s, 0, 0)
}

/// Decides whether the bracket structure of `code` is well-formed: every
/// `[` has a matching `]`, and no `]` comes before its `[`.
pub fn is_nesting_correct(code: &Vec<u8>) -> (r: bool)
    ensures
        r == nesting_ok(code@),
{
    let mut depth: usize = 0;
    let mut i: usize = 0;
    while i < code.len()
        invariant
            i <= code.len(),
            depth <= i,
            nesting_ok(code@) == nesting_ok_from(code@, i as int, depth as int),
        decreases code.len() - i,
    {
        let c = code[i];
        if c == OPEN_BRACKET {
            depth = depth + 1;
        } else if c == CLOSE_BRACKET {
            if depth == 0 {
                return false;
            }
            depth = depth - 1;
        }
        i = i + 1;
    }
    depth == 0
}

} // verus!
