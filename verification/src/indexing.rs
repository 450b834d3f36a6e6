//! Index arithmetic for the host's sequence protocol.
//!
//! The host exposes a trajectory as a sequence whose consumers may index it
//! from the back with negative positions.  A negative position is shifted up
//! by the sequence's length until it is non-negative; a non-negative
//! position is passed through unchanged, and the caller bounds-checks it
//! against the length afterwards.

use vstd::prelude::*;
use vstd::arithmetic::div_mod::lemma_mod_add_multiples_vanish;
use vstd::arithmetic::div_mod::lemma_small_mod;

verus! {

/// Resolves a possibly negative position against a sequence of `size`
/// elements: a non-negative position is returned as it is, and a negative
/// one is wrapped to its distance from the end, which is its remainder
/// modulo `size`.
pub fn make_idx_usable(idx: isize, size: usize) -> (usable: usize)
    requires
        idx >= 0 || size >= 1,
        size <= isize::MAX as usize,
    ensures
        idx >= 0 ==> usable as int == idx as int,
        idx < 0 ==> usable as int == (idx as int) % (size as int),
    decreases (if idx < 0 {
        0 - (idx as int)
    } else {
        0
    }),
{
    if idx < 0 {
        let next = idx + (size as isize);
        let shifted = make_idx_usable(next, size);
        proof {
            lemma_mod_add_multiples_vanish(idx as int, size as int);
            if next >= 0 {
                lemma_small_mod(next as nat, size as nat);
            }
        }
        shifted
    } else {
        idx as usize
    }
}

} // verus!
