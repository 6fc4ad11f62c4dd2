//! Facts about bit operations that several register models rest on.

use vstd::prelude::*;

verus! {

/// A masked value never exceeds its mask.
pub proof fn lemma_and_bounded(word: u32, mask: u32)
    by (bit_vector)
    ensures
        word & mask <= mask,
{
}

} // verus!
