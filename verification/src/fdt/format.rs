//! The flattened device tree as a format on bytes.
//!
//! A blob is walked only if it is well formed: its header names a structure
//! block and a strings block that lie in the blob, the structure block is
//! made of whole nodes and properties, every property has a name in the
//! strings block, and every `reg` property can be split into cells and its
//! first range has an end. [`well_formed`] tests that, word by word.

use vstd::prelude::*;
use vstd::slice::slice_subrange;

verus! {

/// Length of the header of a blob in bytes.
pub const HEADER_LEN: usize = 40;

/// Token that begins a node; the name of the node follows.
pub const BEGIN_NODE: u32 = 1;

/// Token that ends a node.
pub const END_NODE: u32 = 2;

/// Token that begins a property; its length, the offset of its name and its
/// value follow.
pub const PROP: u32 = 3;

/// Token that stands for nothing.
pub const NOP: u32 = 4;

/// Number of words that an address and a size take in a `reg` property.
#[derive(Clone, Copy, Debug, PartialEq, Eq, Structural)]
pub struct Cells {
    pub address: u32,
    pub size: u32,
}

/// The cells in force in a node that is open: those of its own `reg`
/// properties, and those of the `reg` properties of the children it has
/// from here on.
#[derive(Clone, Copy, Debug, PartialEq, Eq, Structural)]
pub struct Frame {
    pub own: Cells,
    pub children: Cells,
}

/// The cells of the children of a node that does not say otherwise: two
/// words of address, one of size.
pub open spec fn default_cells() -> Cells {
    Cells { address: 2, size: 1 }
}

/// The bytes of `#address-cells`.
pub open spec fn name_address_cells() -> Seq<u8> {
    seq![
        0x23u8,
        0x61u8,
        0x64u8,
        0x64u8,
        0x72u8,
        0x65u8,
        0x73u8,
        0x73u8,
        0x2du8,
        0x63u8,
        0x65u8,
        0x6cu8,
        0x6cu8,
        0x73u8,
    ]
}

/// The bytes of `#size-cells`.
pub open spec fn name_size_cells() -> Seq<u8> {
    seq![0x23u8, 0x73u8, 0x69u8, 0x7au8, 0x65u8, 0x2du8, 0x63u8, 0x65u8, 0x6cu8, 0x6cu8, 0x73u8]
}

/// The bytes of `reg`.
pub open spec fn name_reg() -> Seq<u8> {
    seq![0x72u8, 0x65u8, 0x67u8]
}

/// The big-endian word that starts at byte `at`.
pub open spec fn spec_word(blob: Seq<u8>, at: int) -> u32 {
    (blob[at] as int * 0x100_0000 + blob[at + 1] as int * 0x1_0000 + blob[at + 2] as int * 0x100
        + blob[at + 3] as int) as u32
}

/// Where the name of a node that starts at byte `from` ends: behind the
/// first word whose last byte is zero, if there is one before `end`.
pub open spec fn spec_name_stop(blob: Seq<u8>, from: int, end: int) -> Option<int>
    decreases end - from,
{
    if from + 4 > end {
        None
    } else if blob[from + 3] == 0 {
        Some(from + 4)
    } else {
        spec_name_stop(blob, from + 4, end)
    }
}

/// Where the first zero byte from `from` on lies, if there is one before
/// `stop`.
pub open spec fn spec_nul(blob: Seq<u8>, from: int, stop: int) -> Option<int>
    decreases stop - from,
{
    if from >= stop {
        None
    } else if blob[from] == 0 {
        Some(from)
    } else {
        spec_nul(blob, from + 1, stop)
    }
}

/// The number that `cells` words from byte `at` on stand for, as far as it
/// fits 64 bits: its last two words.
pub open spec fn spec_cell_value(blob: Seq<u8>, at: int, cells: u32) -> int {
    if cells == 0 {
        0
    } else if cells == 1 {
        spec_word(blob, at) as int
    } else {
        spec_word(blob, at + 4 * (cells - 2)) * 0x1_0000_0000 + spec_word(
            blob,
            at + 4 * (cells - 1),
        )
    }
}

/// Whether a `reg` property of `words` words at byte `value` can be read
/// with these cells: an item has at least one word, and if the property is
/// made of whole items, the first range ends within 64 bits.
pub open spec fn spec_reg_ok(blob: Seq<u8>, value: int, words: int, cells: Cells) -> bool {
    let item = cells.address + cells.size;
    &&& 1 <= item <= u32::MAX
    &&& (words > 0 && words % item == 0) ==> spec_cell_value(blob, value, cells.address)
        + spec_cell_value(blob, value + 4 * cells.address, cells.size) <= u64::MAX
}

/// The cells of the children to come, after a property: a one-word
/// `#address-cells` or `#size-cells` sets them.
pub open spec fn spec_children_after(
    blob: Seq<u8>,
    name: Seq<u8>,
    value: int,
    words: int,
    children: Cells,
) -> Cells {
    if words == 1 && name == name_address_cells() {
        Cells { address: spec_word(blob, value), size: children.size }
    } else if words == 1 && name == name_size_cells() {
        Cells { address: children.address, size: spec_word(blob, value) }
    } else {
        children
    }
}

/// Whether the words from byte `at` to byte `end` close every node of
/// `open`, innermost last, with nothing amiss on the way.
///
/// A node begins with its name, which must end before `end`. A property
/// gives its length and the offset of its name in the strings block, which
/// lies from byte `strings` to byte `strings_end`; its value must end before
/// `end`, its name must end with a zero byte in the strings block, and if
/// its name is `reg` it must be readable with the cells of its node. Any
/// other token but the one that stands for nothing is amiss, and so is the
/// end of the words before the outermost node is closed.
pub open spec fn spec_scan(
    blob: Seq<u8>,
    at: int,
    end: int,
    strings: int,
    strings_end: int,
    open: Seq<Frame>,
) -> bool
    decreases end - at,
{
    if at + 4 > end || open.len() == 0 {
        false
    } else {
        let token = spec_word(blob, at);
        if token == BEGIN_NODE {
            match spec_name_stop(blob, at + 4, end) {
                Some(next) => at < next <= end && spec_scan(
                    blob,
                    next,
                    end,
                    strings,
                    strings_end,
                    open.push(Frame { own: open.last().children, children: default_cells() }),
                ),
                None => false,
            }
        } else if token == END_NODE {
            open.len() == 1 || spec_scan(blob, at + 4, end, strings, strings_end, open.drop_last())
        } else if token == PROP {
            if at + 12 > end {
                false
            } else {
                let words = (spec_word(blob, at + 4) + 3) / 4;
                let name_at = strings + spec_word(blob, at + 8);
                let value = at + 12;
                if value + 4 * words > end || name_at > strings_end {
                    false
                } else {
                    match spec_nul(blob, name_at, strings_end) {
                        Some(stop) => {
                            let name = blob.subrange(name_at, stop);
                            let frame = Frame {
                                own: open.last().own,
                                children: spec_children_after(
                                    blob,
                                    name,
                                    value,
                                    words,
                                    open.last().children,
                                ),
                            };
                            &&& name == name_reg() ==> spec_reg_ok(
                                blob,
                                value,
                                words,
                                open.last().own,
                            )
                            &&& spec_scan(
                                blob,
                                value + 4 * words,
                                end,
                                strings,
                                strings_end,
                                open.update(open.len() - 1, frame),
                            )
                        },
                        None => false,
                    }
                }
            }
        } else if token == NOP {
            spec_scan(blob, at + 4, end, strings, strings_end, open)
        } else {
            false
        }
    }
}

/// Whether a blob is a device tree that can be walked.
///
/// The header is ten big-endian words, of which the total size, the offset
/// and size of the structure block and the offset and size of the strings
/// block count here. Both blocks lie within the total size, and that within
/// the blob. The structure block is made of words. Its first two words,
/// where the root node begins, and its last word are passed over unread;
/// the words between them close the root node with nothing amiss.
/// Addresses are taken to have 64 bits.
///
/// Every node is held to this, also a node that a walk passes over: a blob
/// that is amiss only in such a node, by the name of a property or by the
/// cells of a `reg`, is refused although a walk would not come to read
/// what is amiss. How deep nodes lie within nodes is not limited.
pub open spec fn spec_well_formed(blob: Seq<u8>) -> bool {
    &&& usize::BITS == 64
    &&& blob.len() >= HEADER_LEN
    &&& {
        let total = spec_word(blob, 4);
        let off_struct = spec_word(blob, 8);
        let off_strings = spec_word(blob, 12);
        let len_strings = spec_word(blob, 32);
        let len_struct = spec_word(blob, 36);
        &&& total <= blob.len()
        &&& off_struct % 4 == 0
        &&& len_struct % 4 == 0
        &&& len_struct >= 12
        &&& off_struct + len_struct <= total
        &&& off_strings + len_strings <= total
        &&& spec_scan(
            blob,
            off_struct + 8,
            off_struct + len_struct - 4,
            off_strings as int,
            off_strings + len_strings,
            seq![Frame { own: default_cells(), children: default_cells() }],
        )
    }
}

/// Reads the big-endian word that starts at byte `at`.
pub fn word(blob: &[u8], at: usize) -> (w: u32)
    requires
        at + 4 <= blob.len(),
    ensures
        w == spec_word(blob@, at as int),
{
    let b0: u32 = blob[at] as u32;
    let b1: u32 = blob[at + 1] as u32;
    let b2: u32 = blob[at + 2] as u32;
    let b3: u32 = blob[at + 3] as u32;
    b0 * 0x100_0000 + b1 * 0x1_0000 + b2 * 0x100 + b3
}

/// Finds where the name of a node that starts at byte `from` ends.
fn name_stop(blob: &[u8], from: usize, end: usize) -> (stop: Option<usize>)
    requires
        from <= end <= blob.len(),
    ensures
        match stop {
            Some(next) => spec_name_stop(blob@, from as int, end as int) == Some(next as int)
                && from < next <= end,
            None => spec_name_stop(blob@, from as int, end as int) is None,
        },
{
    let mut at: usize = from;
    while end - at >= 4
        invariant
            from <= at <= end <= blob.len(),
            spec_name_stop(blob@, from as int, end as int) == spec_name_stop(
                blob@,
                at as int,
                end as int,
            ),
        decreases end - at,
    {
        if blob[at + 3] == 0 {
            return Some(at + 4);
        }
        at += 4;
    }
    None
}

/// Finds the first zero byte from `from` on, before `stop`.
fn nul(blob: &[u8], from: usize, stop: usize) -> (found: Option<usize>)
    requires
        from <= stop <= blob.len(),
    ensures
        match found {
            Some(at) => spec_nul(blob@, from as int, stop as int) == Some(at as int) && from <= at
                < stop,
            None => spec_nul(blob@, from as int, stop as int) is None,
        },
{
    let mut at: usize = from;
    while at < stop
        invariant
            from <= at <= stop <= blob.len(),
            spec_nul(blob@, from as int, stop as int) == spec_nul(blob@, at as int, stop as int),
        decreases stop - at,
    {
        if blob[at] == 0 {
            return Some(at);
        }
        at += 1;
    }
    None
}

/// Tests whether two runs of bytes are the same.
fn same_bytes(left: &[u8], right: &[u8]) -> (same: bool)
    ensures
        same == (left@ == right@),
{
    if left.len() != right.len() {
        return false;
    }
    let mut i: usize = 0;
    while i < left.len()
        invariant
            i <= left.len() == right.len(),
            forall|k: int| 0 <= k < i ==> left[k] == right[k],
        decreases left.len() - i,
    {
        if left[i] != right[i] {
            return false;
        }
        i += 1;
    }
    proof {
        assert(left@ =~= right@);
    }
    true
}

/// Reads the number that `cells` words from byte `at` on stand for, as far
/// as it fits 64 bits.
fn cell_value(blob: &[u8], at: usize, cells: u32) -> (value: u64)
    requires
        at + 4 * cells <= blob.len(),
    ensures
        value == spec_cell_value(blob@, at as int, cells),
{
    if cells == 0 {
        0
    } else if cells == 1 {
        word(blob, at) as u64
    } else {
        let high: u64 = word(blob, at + 4 * (cells as usize - 2)) as u64;
        let low: u64 = word(blob, at + 4 * (cells as usize - 1)) as u64;
        high * 0x1_0000_0000 + low
    }
}

/// Tests whether a `reg` property can be read with these cells.
fn reg_ok(blob: &[u8], value: usize, words: usize, cells: Cells) -> (ok: bool)
    requires
        value + 4 * words <= blob.len(),
    ensures
        ok == spec_reg_ok(blob@, value as int, words as int, cells),
{
    let item: u64 = cells.address as u64 + cells.size as u64;
    if item < 1 || item > 0xffff_ffff {
        return false;
    }
    if words == 0 || words as u64 % item != 0 {
        return true;
    }
    proof {
        if (words as nat) < (item as nat) {
            vstd::arithmetic::div_mod::lemma_small_mod(words as nat, item as nat);
        }
    }
    let base: u64 = cell_value(blob, value, cells.address);
    let size: u64 = cell_value(blob, value + 4 * (cells.address as usize), cells.size);
    size <= u64::MAX - base
}

/// Tests whether the words from byte `start` to byte `end` close the root
/// node with nothing amiss.
fn scan(blob: &[u8], start: usize, end: usize, strings: usize, strings_end: usize) -> (ok: bool)
    requires
        start <= end <= blob.len(),
        strings <= strings_end <= blob.len(),
        usize::BITS == 64,
    ensures
        ok == spec_scan(
            blob@,
            start as int,
            end as int,
            strings as int,
            strings_end as int,
            seq![Frame { own: default_cells(), children: default_cells() }],
        ),
{
    let cells = Cells { address: 2, size: 1 };
    let mut open: Vec<Frame> = Vec::new();
    open.push(Frame { own: cells, children: cells });
    let mut at: usize = start;
    loop
        invariant
            start <= at <= end <= blob.len(),
            strings <= strings_end <= blob.len(),
            usize::BITS == 64,
            open@.len() >= 1,
            spec_scan(
                blob@,
                start as int,
                end as int,
                strings as int,
                strings_end as int,
                seq![Frame { own: default_cells(), children: default_cells() }],
            ) == spec_scan(
                blob@,
                at as int,
                end as int,
                strings as int,
                strings_end as int,
                open@,
            ),
        decreases end - at,
    {
        if end - at < 4 {
            return false;
        }
        let token = word(blob, at);
        let last = open.len() - 1;
        if token == BEGIN_NODE {
            match name_stop(blob, at + 4, end) {
                Some(next) => {
                    let frame = Frame {
                        own: open[last].children,
                        children: Cells { address: 2, size: 1 },
                    };
                    open.push(frame);
                    at = next;
                },
                None => {
                    return false;
                },
            }
        } else if token == END_NODE {
            if last == 0 {
                return true;
            }
            open.pop();
            at += 4;
        } else if token == PROP {
            if end - at < 12 {
                return false;
            }
            let len: u32 = word(blob, at + 4);
            let name_off: usize = word(blob, at + 8) as usize;
            let words: usize = (len as usize + 3) / 4;
            let value: usize = at + 12;
            if words > (end - value) / 4 || name_off > strings_end - strings {
                return false;
            }
            match nul(blob, strings + name_off, strings_end) {
                Some(stop) => {
                    let name = slice_subrange(blob, strings + name_off, stop);
                    let address_cells: [u8; 14] = [
                        0x23,
                        0x61,
                        0x64,
                        0x64,
                        0x72,
                        0x65,
                        0x73,
                        0x73,
                        0x2d,
                        0x63,
                        0x65,
                        0x6c,
                        0x6c,
                        0x73,
                    ];
                    let size_cells: [u8; 11] = [
                        0x23,
                        0x73,
                        0x69,
                        0x7a,
                        0x65,
                        0x2d,
                        0x63,
                        0x65,
                        0x6c,
                        0x6c,
                        0x73,
                    ];
                    let reg: [u8; 3] = [0x72, 0x65, 0x67];
                    let mut frame = open[last];
                    if same_bytes(name, reg.as_slice()) {
                        if !reg_ok(blob, value, words, frame.own) {
                            return false;
                        }
                    } else if words == 1 && same_bytes(name, address_cells.as_slice()) {
                        frame.children.address = word(blob, value);
                    } else if words == 1 && same_bytes(name, size_cells.as_slice()) {
                        frame.children.size = word(blob, value);
                    }
                    open.set(last, frame);
                    at = value + 4 * words;
                },
                None => {
                    return false;
                },
            }
        } else if token == NOP {
            at += 4;
        } else {
            return false;
        }
    }
}

/// Tests whether a blob is a device tree that can be walked.
pub fn well_formed(blob: &[u8]) -> (ok: bool)
    ensures
        ok == spec_well_formed(blob@),
{
    if usize::BITS != 64 || blob.len() < HEADER_LEN {
        return false;
    }
    let total: usize = word(blob, 4) as usize;
    let off_struct: usize = word(blob, 8) as usize;
    let off_strings: usize = word(blob, 12) as usize;
    let len_strings: usize = word(blob, 32) as usize;
    let len_struct: usize = word(blob, 36) as usize;
    if total > blob.len() || off_struct % 4 != 0 || len_struct % 4 != 0 || len_struct < 12 {
        return false;
    }
    if off_struct + len_struct > total || off_strings + len_strings > total {
        return false;
    }
    scan(
        blob,
        off_struct + 8,
        off_struct + len_struct - 4,
        off_strings,
        off_strings + len_strings,
    )
}

} // verus!
