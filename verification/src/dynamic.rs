//! Frequently used first boot stage dynamic information on RISC-V.

use vstd::prelude::*;

verus! {

/// M-mode firmware dynamic information.
///
/// In memory the record is five machine words, in the order of the fields.
#[derive(Clone, Copy, Debug, PartialEq, Eq, Structural)]
pub struct DynamicInfo {
    /// Dynamic information magic value.
    pub magic: usize,
    /// Version of dynamic information.
    pub version: usize,
    /// Address of the next boot-loading stage.
    pub next_addr: usize,
    /// RISC-V privilege mode of the next boot-loading stage.
    pub next_mode: usize,
    /// M-mode firmware options; its definition varies between SBI implementations.
    pub options: usize,
}

impl DynamicInfo {
    /// Whether the record carries the magic value that is expected of it.
    pub open spec fn spec_is_valid(self, expected_magic: usize) -> bool {
        self.magic == expected_magic
    }

    /// Takes the record from the five words it is made of in memory.
    pub fn from_words(words: [usize; 5]) -> (info: Self)
        ensures
            info == (DynamicInfo {
                magic: words[0],
                version: words[1],
                next_addr: words[2],
                next_mode: words[3],
                options: words[4],
            }),
    {
        DynamicInfo {
            magic: words[0],
            version: words[1],
            next_addr: words[2],
            next_mode: words[3],
            options: words[4],
        }
    }

    /// Tests whether the record carries the magic value that is expected of
    /// it. Only a record that does is trusted with the address to jump to.
    pub fn is_valid(&self, expected_magic: usize) -> (r: bool)
        ensures
            r == self.spec_is_valid(expected_magic),
    {
        self.magic == expected_magic
    }
}

} // verus!
