//! What the previous boot stage handed over.

use vstd::prelude::*;

verus! {

/// First word of a flattened device tree, read as a big-endian number.
pub const FDT_MAGIC: u32 = 0xd00d_feed;

/// Tests whether the word at the start of what was handed over marks a
/// flattened device tree.
pub fn is_fdt_blob(signature: u32) -> (r: bool)
    ensures
        r == (signature == FDT_MAGIC),
{
    signature == 0xd00d_feed
}

} // verus!
