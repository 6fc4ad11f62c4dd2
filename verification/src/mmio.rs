//! Accesses to memory-mapped registers, as values.
//!
//! A driver never dereferences an address. It names a register by the base
//! address of its peripheral and a byte offset into it, and hands out the
//! accesses it wants performed, in order.

use vstd::prelude::*;

verus! {

/// A register of a peripheral: the peripheral's base address and the
/// register's byte offset from it.
#[derive(Clone, Copy, Debug, PartialEq, Eq, Structural)]
pub struct Register {
    pub base: usize,
    pub offset: usize,
}

/// One access to a register.
#[derive(Clone, Copy, Debug, PartialEq, Eq, Structural)]
pub enum Access {
    /// Store `value` in the 32-bit register.
    Write { reg: Register, value: u32 },
    /// Store `value` in the lowest byte lane of the register.
    WriteByte { reg: Register, byte: u8 },
    /// Store `half` in the lower half of the register.
    WriteHalf { reg: Register, half: u16 },
    /// Load the register, clear the bits of `clear`, set the bits of `set`,
    /// and store the result.
    Modify { reg: Register, clear: u32, set: u32 },
    /// Load the register again and again until no bit of `mask` is set.
    WaitClear { reg: Register, mask: u32 },
    /// Load the register again and again until some bit of `mask` is set.
    WaitSet { reg: Register, mask: u32 },
    /// Load the lowest byte lane of the register and hand the byte out.
    ReadByte { reg: Register },
    /// Load the lower half of the register and hand it out.
    ReadHalf { reg: Register },
    /// Load the 32-bit register and hand the word out.
    Read { reg: Register },
}

impl Access {
    /// The register this access goes to.
    pub open spec fn target(self) -> Register {
        match self {
            Access::Write { reg, .. } => reg,
            Access::WriteByte { reg, .. } => reg,
            Access::WriteHalf { reg, .. } => reg,
            Access::Modify { reg, .. } => reg,
            Access::WaitClear { reg, .. } => reg,
            Access::WaitSet { reg, .. } => reg,
            Access::ReadByte { reg } => reg,
            Access::ReadHalf { reg } => reg,
            Access::Read { reg } => reg,
        }
    }

    /// What a 32-bit register holds after this access, if it held `before`.
    /// Waiting and reading do not change it; a write of a byte or of a half
    /// word is not modelled here because the data registers it goes to are
    /// not memory.
    pub open spec fn stored(self, before: u32) -> u32 {
        match self {
            Access::Write { value, .. } => value,
            Access::Modify { clear, set, .. } => (before & !clear) | set,
            _ => before,
        }
    }

    /// The register this access goes to.
    pub fn register(&self) -> (reg: Register)
        ensures
            reg == self.target(),
    {
        match self {
            Access::Write { reg, .. } => *reg,
            Access::WriteByte { reg, .. } => *reg,
            Access::WriteHalf { reg, .. } => *reg,
            Access::Modify { reg, .. } => *reg,
            Access::WaitClear { reg, .. } => *reg,
            Access::WaitSet { reg, .. } => *reg,
            Access::ReadByte { reg } => *reg,
            Access::ReadHalf { reg } => *reg,
            Access::Read { reg } => *reg,
        }
    }

    /// Computes what a 32-bit register holds after this access.
    pub fn apply(&self, before: u32) -> (after: u32)
        ensures
            after == self.stored(before),
    {
        match self {
            Access::Write { value, .. } => *value,
            Access::Modify { clear, set, .. } => (before & !*clear) | *set,
            _ => before,
        }
    }
}

} // verus!
