//! Common control peripheral of the DRAM controller.

use vstd::prelude::*;
use vstd::arithmetic::power2::pow2;
use crate::base_address::{BaseAddress, Dynamic, Static};
use crate::bits::lemma_and_bounded;
use crate::mmio::{Access, Register};

verus! {

/// Common control peripheral of DDR SDRAM.
pub struct COM<A: BaseAddress> {
    base: A,
}

/// The registers of the common control peripheral.
#[derive(Clone, Copy, Debug)]
pub struct RegisterBlock {
    /// 0x00 - work mode of rank 0.
    pub work_mode_0: Register,
    /// 0x04 - work mode of rank 1.
    pub work_mode_1: Register,
    /// 0x08
    pub dbgcr: Register,
    /// 0x0c
    pub tmr: Register,
    /// 0x14
    pub cccr: Register,
    /// 0x20
    pub maer0: Register,
    /// 0x24
    pub maer1: Register,
    /// 0x28
    pub maer2: Register,
    /// 0x500
    pub remap0: Register,
    /// 0x504
    pub remap1: Register,
    /// 0x508
    pub remap2: Register,
    /// 0x50c
    pub remap3: Register,
}

impl RegisterBlock {
    /// Whether this is the register block of the peripheral at `base`:
    /// every register lies at its hardware offset.
    pub open spec fn is_at(self, base: usize) -> bool {
        &&& self.work_mode_0 == (Register { base, offset: 0x00 })
        &&& self.work_mode_1 == (Register { base, offset: 0x04 })
        &&& self.dbgcr == (Register { base, offset: 0x08 })
        &&& self.tmr == (Register { base, offset: 0x0c })
        &&& self.cccr == (Register { base, offset: 0x14 })
        &&& self.maer0 == (Register { base, offset: 0x20 })
        &&& self.maer1 == (Register { base, offset: 0x24 })
        &&& self.maer2 == (Register { base, offset: 0x28 })
        &&& self.remap0 == (Register { base, offset: 0x500 })
        &&& self.remap1 == (Register { base, offset: 0x504 })
        &&& self.remap2 == (Register { base, offset: 0x508 })
        &&& self.remap3 == (Register { base, offset: 0x50c })
    }

    /// The register block of the peripheral at `base`.
    pub fn at(base: usize) -> (block: Self)
        ensures
            block.is_at(base),
    {
        RegisterBlock {
            work_mode_0: Register { base, offset: 0x00 },
            work_mode_1: Register { base, offset: 0x04 },
            dbgcr: Register { base, offset: 0x08 },
            tmr: Register { base, offset: 0x0c },
            cccr: Register { base, offset: 0x14 },
            maer0: Register { base, offset: 0x20 },
            maer1: Register { base, offset: 0x24 },
            maer2: Register { base, offset: 0x28 },
            remap0: Register { base, offset: 0x500 },
            remap1: Register { base, offset: 0x504 },
            remap2: Register { base, offset: 0x508 },
            remap3: Register { base, offset: 0x50c },
        }
    }
}

/// Dram type
#[derive(Clone, Copy, Debug, PartialEq, Eq, Structural)]
pub enum Type {
    /// DDR2
    Ddr2,
    /// DDR3
    Ddr3,
    /// LPDDR2
    LpDdr2,
    /// LPDDR3
    LpDdr3,
}

impl Type {
    /// The value of the type field of the work-mode word.
    pub open spec fn code(self) -> u32 {
        match self {
            Type::Ddr2 => 2,
            Type::Ddr3 => 3,
            Type::LpDdr2 => 6,
            Type::LpDdr3 => 7,
        }
    }

    /// Whether the type is one of the low-power types.
    pub open spec fn low_power(self) -> bool {
        self == Type::LpDdr2 || self == Type::LpDdr3
    }
}

/// Dram configuration
#[derive(Clone, Copy, Debug, PartialEq, Eq, Structural)]
pub struct Config {
    pub dram_type: Type,
    pub unknown_tpr13_bit5: bool,
}

/// Mask of the bits of the work-mode word that a configuration replaces:
/// bits 16 to 23.
pub const WORK_MODE_CONFIG: u32 = 0x00ff_0000;

/// The bits that a configuration sets in the work-mode word of rank 0: the
/// type in bits 16 to 18, full data width in bit 12, bit 22, and bit 19 for
/// the low-power types or when asked for.
pub open spec fn spec_config_bits(config: Config) -> int {
    config.dram_type.code() * 0x1_0000 + 0x1000 + 0x40_0000 + if config.dram_type.low_power()
        || config.unknown_tpr13_bit5 {
        0x8_0000int
    } else {
        0int
    }
}

impl<A: BaseAddress> COM<A> {
    /// The address the peripheral lies at.
    pub closed spec fn base(&self) -> usize {
        self.base.addr()
    }

    /// The registers of this peripheral.
    pub fn registers(&self) -> (block: RegisterBlock)
        ensures
            block.is_at(self.base()),
    {
        RegisterBlock::at(self.base.ptr())
    }

    /// Configure dram settings: the access that replaces bits 16 to 23 of
    /// the work-mode word of rank 0 and sets bit 12.
    #[inline]
    pub fn configure(&self, config: Config) -> (access: Access)
        ensures
            access == (Access::Modify {
                reg: Register { base: self.base(), offset: 0x00 },
                clear: WORK_MODE_CONFIG,
                set: spec_config_bits(config) as u32,
            }),
    {
        let dram_type_bits: u32 = match config.dram_type {
            Type::Ddr2 => 0x2_0000,
            Type::Ddr3 => 0x3_0000,
            Type::LpDdr2 => 0x6_0000,
            Type::LpDdr3 => 0x7_0000,
        };
        let dq_width: u32 = 0x1000;
        let unknown1: u32 = 0x40_0000;
        let unknown2: u32 = match config.dram_type {
            Type::LpDdr2 | Type::LpDdr3 => 0x8_0000,
            _ => if config.unknown_tpr13_bit5 {
                0x8_0000
            } else {
                0
            },
        };
        let bits: u32 = dram_type_bits + dq_width + unknown1 + unknown2;
        Access::Modify { reg: self.registers().work_mode_0, clear: WORK_MODE_CONFIG, set: bits }
    }

    /// Get DRAM size in bytes, from the words read from the work-mode
    /// registers of rank 0 and rank 1.
    #[inline]
    pub fn dram_size(&self, work_mode_0: u32, work_mode_1: u32) -> (size: u64)
        ensures
            size == spec_decode_size(work_mode_0, work_mode_1),
    {
        decode_size(work_mode_0, work_mode_1)
    }
}

impl<const B: usize> COM<Static<B>> {
    /// Takes the peripheral at the address `B`. Whoever calls this answers
    /// for there being no second handle to the same peripheral.
    #[inline]
    pub fn steal_static() -> (com: COM<Static<B>>)
        ensures
            com.base() == B,
    {
        COM { base: Static::<B> }
    }
}

impl COM<Dynamic> {
    /// Takes the peripheral at `base`. Whoever calls this answers for there
    /// being no second handle to the same peripheral.
    #[inline]
    pub fn steal_dynamic(base: usize) -> (com: COM<Dynamic>)
        ensures
            com.base() == base,
    {
        COM { base: Dynamic::new(base) }
    }
}

/// Page-size field of a rank's work-mode word, as stored.
pub open spec fn page_size_bits(bits: u32) -> u32 {
    (bits >> 8u32) & 0xf
}

/// Row-width field of a rank's work-mode word, as stored.
pub open spec fn row_width_bits(bits: u32) -> u32 {
    (bits >> 4u32) & 0xf
}

/// Bank-count field of a rank's work-mode word, as stored.
pub open spec fn bank_count_bits(bits: u32) -> u32 {
    (bits >> 2u32) & 0x3
}

/// Base-2 logarithm of the size in bytes that one rank's work-mode word
/// describes: page size, row width and bank count, each with its offset.
pub open spec fn spec_rank_size_log2(bits: u32) -> int {
    (page_size_bits(bits) + 3) + (row_width_bits(bits) + 1) + (bank_count_bits(bits) + 2)
}

/// Whether the word of rank 0 reports a single rank; when read of the word
/// of rank 1, whether that rank is configured as rank 0 is.
pub open spec fn low_bits_clear(bits: u32) -> bool {
    bits & 0x3 == 0
}

/// Base-2 logarithm of the DRAM size that the two work-mode words describe.
pub open spec fn spec_size_log2(bits_0: u32, bits_1: u32) -> int {
    if low_bits_clear(bits_0) {
        spec_rank_size_log2(bits_0)
    } else if low_bits_clear(bits_1) {
        spec_rank_size_log2(bits_0) + 1
    } else {
        spec_rank_size_log2(bits_0) + spec_rank_size_log2(bits_1)
    }
}

/// The DRAM size in bytes that the two work-mode words describe. The
/// exponent is taken modulo 64, so that register contents no hardware
/// produces still give a value.
pub open spec fn spec_decode_size(bits_0: u32, bits_1: u32) -> nat {
    pow2((spec_size_log2(bits_0, bits_1) % 64) as nat)
}

/// The logarithm of a rank's size lies between 6 and 39.
pub proof fn lemma_rank_size_log2_range(bits: u32)
    ensures
        6 <= spec_rank_size_log2(bits) <= 39,
{
    lemma_and_bounded(bits >> 8u32, 0xf);
    lemma_and_bounded(bits >> 4u32, 0xf);
    lemma_and_bounded(bits >> 2u32, 0x3);
}

/// Decodes the base-2 logarithm of one rank's size from its work-mode word.
pub fn rank_size_log2(bits: u32) -> (log2: u32)
    ensures
        log2 == spec_rank_size_log2(bits),
        6 <= log2 <= 39,
{
    let page_size_bits: u32 = (bits >> 8) & 0xf;
    let row_width_bits: u32 = (bits >> 4) & 0xf;
    let bank_count_bits: u32 = (bits >> 2) & 0x3;
    proof {
        lemma_rank_size_log2_range(bits);
    }
    let page_size: u32 = page_size_bits + 3;
    let row_width: u32 = row_width_bits + 1;
    let bank_count: u32 = bank_count_bits + 2;
    page_size + row_width + bank_count
}

/// Decodes the DRAM size in bytes from the work-mode words of rank 0 and
/// rank 1.
///
/// A single rank gives the size of rank 0. Two ranks of one configuration
/// give twice that. Two ranks that differ give two to the sum of both
/// logarithms.
pub fn decode_size(bits_0: u32, bits_1: u32) -> (size: u64)
    ensures
        size == spec_decode_size(bits_0, bits_1),
{
    let ans_rank_0: u32 = rank_size_log2(bits_0);
    let single_rank: bool = (bits_0 & 0x3) == 0;
    let log2: u32 = if single_rank {
        ans_rank_0
    } else {
        let two_identical_ranks: bool = (bits_1 & 0x3) == 0;
        if two_identical_ranks {
            ans_rank_0 + 1
        } else {
            ans_rank_0 + rank_size_log2(bits_1)
        }
    };
    let shift: u32 = log2 % 64;
    proof {
        vstd::bits::lemma_u64_pow2_no_overflow(shift as nat);
        vstd::bits::lemma_u64_shl_is_mul(1u64, shift as u64);
    }
    1u64 << shift
}

/// A single rank has the size that its work-mode word describes: two to the
/// sum of page size, row width and bank count, each with its offset. The
/// word of rank 1 does not matter.
pub proof fn lemma_single_rank_size(bits_0: u32, bits_1: u32)
    requires
        low_bits_clear(bits_0),
    ensures
        spec_decode_size(bits_0, bits_1) == pow2(
            ((page_size_bits(bits_0) + 3) + (row_width_bits(bits_0) + 1) + (bank_count_bits(bits_0)
                + 2)) as nat,
        ),
{
    lemma_rank_size_log2_range(bits_0);
}

/// Two ranks of one configuration have twice the size of a single rank with
/// the work-mode word of rank 0.
pub proof fn lemma_identical_ranks_double(bits_0: u32, bits_1: u32)
    requires
        !low_bits_clear(bits_0),
        low_bits_clear(bits_1),
    ensures
        spec_decode_size(bits_0, bits_1) == 2 * pow2(spec_rank_size_log2(bits_0) as nat),
{
    lemma_rank_size_log2_range(bits_0);
    vstd::arithmetic::power2::lemma_pow2_unfold((spec_rank_size_log2(bits_0) + 1) as nat);
}

/// Two ranks that differ have the product of their sizes, as long as that is
/// below two to the 64.
pub proof fn lemma_different_ranks_multiply(bits_0: u32, bits_1: u32)
    requires
        !low_bits_clear(bits_0),
        !low_bits_clear(bits_1),
        spec_rank_size_log2(bits_0) + spec_rank_size_log2(bits_1) < 64,
    ensures
        spec_decode_size(bits_0, bits_1) == pow2(spec_rank_size_log2(bits_0) as nat) * pow2(
            spec_rank_size_log2(bits_1) as nat,
        ),
{
    lemma_rank_size_log2_range(bits_0);
    lemma_rank_size_log2_range(bits_1);
    vstd::arithmetic::power2::lemma_pow2_adds(
        spec_rank_size_log2(bits_0) as nat,
        spec_rank_size_log2(bits_1) as nat,
    );
}

} // verus!
