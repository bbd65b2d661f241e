//! Small verified helpers on byte vectors.

use vstd::prelude::*;

verus! {

/// A fresh byte vector with the same contents as `v`.
pub fn copy_bytes(v: &Vec<u8>) -> (r: Vec<u8>)
    ensures
        r@ == v@,
{
    let mut r: Vec<u8> = Vec::new();
    let mut i: usize = 0;
    while i < v.len()
        invariant
            i <= v.len(),
            r@ == v@.subrange(0, i as int),
        decreases v.len() - i,
    {
        r.push(v[i]);
        proof {
            assert(v@.subrange(0, i as int).push(v@[i as int]) =~= v@.subrange(0, i + 1));
        }
        i = i + 1;
    }
    proof {
        assert(v@.subrange(0, v@.len() as int) =~= v@);
    }
    r
}

/// Decides whether the first `k` bytes of `a` and `b` agree.
pub fn prefix_eq(a: &Vec<u8>, b: &Vec<u8>, k: usize) -> (r: bool)
    requires
        k <= a@.len(),
        k <= b@.len(),
    ensures
        r == (a@.subrange(0, k as int) == b@.subrange(0, k as int)),
{
    let mut i: usize = 0;
    while i < k
        invariant
            i <= k,
            k <= a@.len(),
            k <= b@.len(),
            forall|j: int| 0 <= j < i ==> a@[j] == b@[j],
        decreases k - i,
    {
        if a[i] != b[i] {
            proof {
                assert(a@.subrange(0, k as int)[i as int] != b@.subrange(0, k as int)[i as int]);
            }
            return false;
        }
        i = i + 1;
    }
    proof {
        assert(a@.subrange(0, k as int) =~= b@.subrange(0, k as int));
    }
    true
}

} // verus!
