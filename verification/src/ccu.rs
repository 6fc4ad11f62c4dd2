//! Clock control unit.
//!
//! The unit gates the bus clock of each peripheral and holds its reset
//! line. Bringing a peripheral up is a fixed protocol of two
//! read-modify-write accesses to the gating register of its class.

use vstd::prelude::*;
use crate::base_address::{BaseAddress, Dynamic, Static};
use crate::mmio::{Access, Register};
use crate::time::Hz;

verus! {

/// Byte offset of the UART bus gating reset register.
pub const UART_BGR_OFFSET: usize = 0x90c;

/// Byte offset of the first SPI clock register; one follows for each SPI.
pub const SPI_CLK_OFFSET: usize = 0x940;

/// Byte offset of the SPI bus gating reset register.
pub const SPI_BGR_OFFSET: usize = 0x96c;

/// Clock configuration of the chip.
#[derive(Clone, Copy, Debug)]
pub struct Clocks {
    /// PSI clock frequency.
    pub psi: Hz,
    /// Advanced Peripheral Bus 1 clock frequency.
    pub apb1: Hz,
}

/// Clock divide factor N.
#[derive(Clone, Copy, Debug, PartialEq, Eq, Structural)]
pub enum FactorN {
    /// Don't divide.
    N1,
    /// Divide frequency by 2.
    N2,
    /// Divide frequency by 4.
    N4,
    /// Divide frequency by 8.
    N8,
}

impl FactorN {
    /// The value of the register field that selects this factor.
    pub open spec fn code(self) -> u32 {
        match self {
            FactorN::N1 => 0,
            FactorN::N2 => 1,
            FactorN::N4 => 2,
            FactorN::N8 => 3,
        }
    }

    /// The number the frequency is divided by.
    pub open spec fn divisor(self) -> u32 {
        match self {
            FactorN::N1 => 1,
            FactorN::N2 => 2,
            FactorN::N4 => 4,
            FactorN::N8 => 8,
        }
    }

    /// The factor that the register field value `code` selects.
    pub fn from_code(code: u8) -> (n: Self)
        requires
            code < 4,
        ensures
            n.code() == code,
    {
        if code == 0 {
            FactorN::N1
        } else if code == 1 {
            FactorN::N2
        } else if code == 2 {
            FactorN::N4
        } else {
            FactorN::N8
        }
    }

    /// Returns the number the frequency is divided by.
    pub fn divide_by(self) -> (d: u32)
        ensures
            d == self.divisor(),
    {
        match self {
            FactorN::N1 => 1,
            FactorN::N2 => 2,
            FactorN::N4 => 4,
            FactorN::N8 => 8,
        }
    }
}

/// SPI clock source.
#[derive(Clone, Copy, Debug, PartialEq, Eq, Structural)]
pub enum ClockSource {
    /// HOSC.
    Hosc,
    /// Peripheral PLL (1x).
    PllPeri1x,
    /// Peripheral PLL (2x).
    PllPeri2x,
    /// Audio PLL (div 2).
    PllAudio1Div2,
    /// Audio PLL (div 5).
    PllAudio1Div5,
}

impl ClockSource {
    /// The value of the register field that selects this source.
    pub open spec fn code(self) -> u32 {
        match self {
            ClockSource::Hosc => 0,
            ClockSource::PllPeri1x => 1,
            ClockSource::PllPeri2x => 2,
            ClockSource::PllAudio1Div2 => 3,
            ClockSource::PllAudio1Div5 => 4,
        }
    }
}

/// The gating bit of peripheral `i` in a bus gating reset register.
pub open spec fn gate_bit(i: usize) -> u32 {
    1u32 << (i as u32)
}

/// The reset bit of peripheral `i` in a bus gating reset register. The line
/// is asserted while the bit is clear.
pub open spec fn reset_bit(i: usize) -> u32 {
    1u32 << ((i + 16) as u32)
}

/// UART bus gating reset register.
#[allow(non_camel_case_types)]
#[derive(Clone, Copy, Debug, PartialEq, Eq, Structural)]
pub struct UART_BGR {
    pub reg: Register,
}

impl UART_BGR {
    /// The access that stores `val` in the register.
    #[inline]
    pub fn write(&self, val: UartBgr) -> (access: Access)
        ensures
            access == (Access::Write { reg: self.reg, value: val@ }),
    {
        Access::Write { reg: self.reg, value: val.0 }
    }
}

/// What the UART bus gating reset register holds.
#[derive(Clone, Copy, Debug, PartialEq, Eq)]
pub struct UartBgr(u32);

impl View for UartBgr {
    type V = u32;

    closed spec fn view(&self) -> u32 {
        self.0
    }
}

impl UartBgr {
    /// Takes a word read from the register.
    #[inline]
    pub fn from_bits(bits: u32) -> (val: Self)
        ensures
            val@ == bits,
    {
        Self(bits)
    }

    /// The word to store in the register.
    #[inline]
    pub fn bits(self) -> (bits: u32)
        ensures
            bits == self@,
    {
        self.0
    }

    /// Disable clock gate for UART `I`.
    #[inline]
    pub fn gate_mask<const I: usize>(self) -> (val: Self)
        requires
            I < 16,
        ensures
            val@ == self@ & !gate_bit(I),
    {
        Self(self.0 & !(1u32 << I))
    }

    /// Enable clock gate for UART `I`.
    #[inline]
    pub fn gate_pass<const I: usize>(self) -> (val: Self)
        requires
            I < 16,
        ensures
            val@ == self@ | gate_bit(I),
    {
        Self(self.0 | (1u32 << I))
    }

    /// Assert reset signal for UART `I`.
    #[inline]
    pub fn assert_reset<const I: usize>(self) -> (val: Self)
        requires
            I < 16,
        ensures
            val@ == self@ & !reset_bit(I),
    {
        Self(self.0 & !(1u32 << (I + 16)))
    }

    /// Deassert reset signal for UART `I`.
    #[inline]
    pub fn deassert_reset<const I: usize>(self) -> (val: Self)
        requires
            I < 16,
        ensures
            val@ == self@ | reset_bit(I),
    {
        Self(self.0 | (1u32 << (I + 16)))
    }
}

/// SPI clock register.
#[allow(non_camel_case_types)]
#[derive(Clone, Copy, Debug, PartialEq, Eq, Structural)]
pub struct SPI_CLK {
    pub reg: Register,
}

impl SPI_CLK {
    /// The access that stores `val` in the register.
    #[inline]
    pub fn write(&self, val: SpiClk) -> (access: Access)
        ensures
            access == (Access::Write { reg: self.reg, value: val@ }),
    {
        Access::Write { reg: self.reg, value: val.0 }
    }
}

/// Mask of the clock source field of the SPI clock register.
pub const CLK_SRC_SEL: u32 = 0x0700_0000;

/// Mask of the factor N field of the SPI clock register.
pub const FACTOR_N: u32 = 0x0000_0300;

/// Mask of the factor M field of the SPI clock register.
pub const FACTOR_M: u32 = 0x0000_000f;

/// What an SPI clock register holds.
#[derive(Clone, Copy, Debug, PartialEq, Eq)]
pub struct SpiClk(u32);

impl View for SpiClk {
    type V = u32;

    closed spec fn view(&self) -> u32 {
        self.0
    }
}

impl SpiClk {
    /// The clock source field.
    pub open spec fn source_code(self) -> u32 {
        (self@ >> 24u32) & 0x7
    }

    /// The factor N field.
    pub open spec fn factor_n_code(self) -> u32 {
        (self@ >> 8u32) & 0x3
    }

    /// Takes a word read from the register.
    #[inline]
    pub fn from_bits(bits: u32) -> (val: Self)
        ensures
            val@ == bits,
    {
        Self(bits)
    }

    /// The word to store in the register.
    #[inline]
    pub fn bits(self) -> (bits: u32)
        ensures
            bits == self@,
    {
        self.0
    }

    /// Tests whether the clock source field names a source.
    #[inline]
    pub fn has_clock_source(self) -> (r: bool)
        ensures
            r == (self.source_code() <= 4),
    {
        (self.0 >> 24) & 0x7 <= 4
    }

    /// Get SPI clock source.
    #[inline]
    pub fn clock_source(self) -> (source: ClockSource)
        requires
            self.source_code() <= 4,
        ensures
            source.code() == self.source_code(),
    {
        let code: u32 = (self.0 >> 24) & 0x7;
        if code == 0 {
            ClockSource::Hosc
        } else if code == 1 {
            ClockSource::PllPeri1x
        } else if code == 2 {
            ClockSource::PllPeri2x
        } else if code == 3 {
            ClockSource::PllAudio1Div2
        } else {
            ClockSource::PllAudio1Div5
        }
    }

    /// Set SPI clock source.
    #[inline]
    pub fn set_clock_source(self, val: ClockSource) -> (clk: Self)
        ensures
            clk@ == (self@ & !CLK_SRC_SEL) | (val.code() << 24u32),
    {
        let val: u32 = match val {
            ClockSource::Hosc => 0x0,
            ClockSource::PllPeri1x => 0x1,
            ClockSource::PllPeri2x => 0x2,
            ClockSource::PllAudio1Div2 => 0x3,
            ClockSource::PllAudio1Div5 => 0x4,
        };
        Self((self.0 & !CLK_SRC_SEL) | (val << 24))
    }

    /// Get SPI clock divide factor N.
    #[inline]
    pub fn factor_n(self) -> (n: FactorN)
        ensures
            n.code() == self.factor_n_code(),
    {
        let code: u32 = (self.0 >> 8) & 0x3;
        proof {
            crate::bits::lemma_and_bounded(self.0 >> 8u32, 0x3);
        }
        if code == 0 {
            FactorN::N1
        } else if code == 1 {
            FactorN::N2
        } else if code == 2 {
            FactorN::N4
        } else {
            FactorN::N8
        }
    }

    /// Set SPI clock divide factor N.
    #[inline]
    pub fn set_factor_n(self, val: FactorN) -> (clk: Self)
        ensures
            clk@ == (self@ & !FACTOR_N) | (val.code() << 8u32),
    {
        let val: u32 = match val {
            FactorN::N1 => 0,
            FactorN::N2 => 1,
            FactorN::N4 => 2,
            FactorN::N8 => 3,
        };
        Self((self.0 & !FACTOR_N) | (val << 8))
    }

    /// Get SPI clock divide factor M.
    #[inline]
    pub fn factor_m(self) -> (m: u8)
        ensures
            m == self@ & FACTOR_M,
    {
        proof {
            crate::bits::lemma_and_bounded(self.0, FACTOR_M);
        }
        (self.0 & FACTOR_M) as u8
    }

    /// Set SPI clock divide factor M. Values above 15 reach into the
    /// reserved bits next to the field.
    #[inline]
    pub fn set_factor_m(self, val: u8) -> (clk: Self)
        ensures
            clk@ == (self@ & !FACTOR_M) | (val as u32),
    {
        Self((self.0 & !FACTOR_M) | val as u32)
    }
}

/// SPI bus gating reset register.
#[allow(non_camel_case_types)]
#[derive(Clone, Copy, Debug, PartialEq, Eq, Structural)]
pub struct SPI_BGR {
    pub reg: Register,
}

impl SPI_BGR {
    /// The access that stores `val` in the register.
    #[inline]
    pub fn write(&self, val: SpiBgr) -> (access: Access)
        ensures
            access == (Access::Write { reg: self.reg, value: val@ }),
    {
        Access::Write { reg: self.reg, value: val.0 }
    }
}

/// What the SPI bus gating reset register holds.
#[derive(Clone, Copy, Debug, PartialEq, Eq)]
pub struct SpiBgr(u32);

impl View for SpiBgr {
    type V = u32;

    closed spec fn view(&self) -> u32 {
        self.0
    }
}

impl SpiBgr {
    /// Takes a word read from the register.
    #[inline]
    pub fn from_bits(bits: u32) -> (val: Self)
        ensures
            val@ == bits,
    {
        Self(bits)
    }

    /// The word to store in the register.
    #[inline]
    pub fn bits(self) -> (bits: u32)
        ensures
            bits == self@,
    {
        self.0
    }

    /// Disable clock gate for SPI `I`.
    #[inline]
    pub fn gate_mask<const I: usize>(self) -> (val: Self)
        requires
            I < 16,
        ensures
            val@ == self@ & !gate_bit(I),
    {
        Self(self.0 & !(1u32 << I))
    }

    /// Enable clock gate for SPI `I`.
    #[inline]
    pub fn gate_pass<const I: usize>(self) -> (val: Self)
        requires
            I < 16,
        ensures
            val@ == self@ | gate_bit(I),
    {
        Self(self.0 | (1u32 << I))
    }

    /// Assert reset signal for SPI `I`.
    #[inline]
    pub fn assert_reset<const I: usize>(self) -> (val: Self)
        requires
            I < 16,
        ensures
            val@ == self@ & !reset_bit(I),
    {
        Self(self.0 & !(1u32 << (I + 16)))
    }

    /// Deassert reset signal for SPI `I`.
    #[inline]
    pub fn deassert_reset<const I: usize>(self) -> (val: Self)
        requires
            I < 16,
        ensures
            val@ == self@ | reset_bit(I),
    {
        Self(self.0 | (1u32 << (I + 16)))
    }
}

/// The registers of the clock control unit that this firmware uses.
#[derive(Clone, Copy, Debug)]
pub struct RegisterBlock {
    /// 0x90c - UART Bus Gating Reset register.
    pub uart_bgr: UART_BGR,
    /// 0x940..=0x944 - SPI0 Clock Register and SPI1 Clock Register.
    pub spi_clk: [SPI_CLK; 2],
    /// 0x96c - SPI Bus Gating Reset register.
    pub spi_bgr: SPI_BGR,
}

impl RegisterBlock {
    /// Whether this is the register block of the unit at `base`: every
    /// register lies at its hardware offset.
    pub open spec fn is_at(self, base: usize) -> bool {
        &&& self.uart_bgr.reg == (Register { base, offset: 0x90c })
        &&& self.spi_clk[0].reg == (Register { base, offset: 0x940 })
        &&& self.spi_clk[1].reg == (Register { base, offset: 0x944 })
        &&& self.spi_bgr.reg == (Register { base, offset: 0x96c })
    }

    /// The register block of the unit at `base`.
    pub fn at(base: usize) -> (block: Self)
        ensures
            block.is_at(base),
    {
        RegisterBlock {
            uart_bgr: UART_BGR { reg: Register { base, offset: UART_BGR_OFFSET } },
            spi_clk: [
                SPI_CLK { reg: Register { base, offset: SPI_CLK_OFFSET } },
                SPI_CLK { reg: Register { base, offset: SPI_CLK_OFFSET + 4 } },
            ],
            spi_bgr: SPI_BGR { reg: Register { base, offset: SPI_BGR_OFFSET } },
        }
    }
}

/// Clock control unit.
pub struct CCU<A: BaseAddress> {
    base: A,
}

impl<A: BaseAddress> CCU<A> {
    /// The address the unit lies at.
    pub closed spec fn base(&self) -> usize {
        self.base.addr()
    }

    /// The registers of this unit.
    pub fn registers(&self) -> (block: RegisterBlock)
        ensures
            block.is_at(self.base()),
    {
        RegisterBlock::at(self.base.ptr())
    }
}

impl<const B: usize> CCU<Static<B>> {
    /// Takes the unit at the address `B`. Whoever calls this answers for
    /// there being no second handle to the same unit.
    #[inline]
    pub fn steal_static() -> (ccu: CCU<Static<B>>)
        ensures
            ccu.base() == B,
    {
        CCU { base: Static::<B> }
    }
}

impl CCU<Dynamic> {
    /// Takes the unit at `base`. Whoever calls this answers for there being
    /// no second handle to the same unit.
    #[inline]
    pub fn steal_dynamic(base: usize) -> (ccu: CCU<Dynamic>)
        ensures
            ccu.base() == base,
    {
        CCU { base: Dynamic::new(base) }
    }
}

/// Peripheral that can be clock gated by CCU.
pub trait ClockGate {
    /// Whether the index of the peripheral names a gate and a reset line.
    spec fn indexed() -> bool;

    /// The gating register of the peripheral's class, in the unit at `base`.
    spec fn gating_register(base: usize) -> Register;

    /// The gating bit and the reset bit of the peripheral.
    spec fn gating_bits() -> u32;

    /// Resets the peripheral: the first access closes its gate and asserts
    /// its reset line, the second opens its gate and releases the line.
    fn reset<A: BaseAddress>(ccu: &CCU<A>) -> (script: [Access; 2])
        requires
            Self::indexed(),
        ensures
            script[0] == (Access::Modify {
                reg: Self::gating_register(ccu.base()),
                clear: Self::gating_bits(),
                set: 0,
            }),
            script[1] == (Access::Modify {
                reg: Self::gating_register(ccu.base()),
                clear: 0,
                set: Self::gating_bits(),
            }),
    ;

    /// Frees the peripheral: closes its gate and asserts its reset line, and
    /// leaves it so.
    fn free<A: BaseAddress>(ccu: &CCU<A>) -> (access: Access)
        requires
            Self::indexed(),
        ensures
            access == (Access::Modify {
                reg: Self::gating_register(ccu.base()),
                clear: Self::gating_bits(),
                set: 0,
            }),
    ;
}

/// Peripheral whose clock can be configurated by CCU.
pub trait ClockConfig {
    /// Type of clock source.
    type Source;

    /// Whether the index of the peripheral names a clock register.
    spec fn clocked() -> bool;

    /// The access that selects `source` and the two divide factors, in the
    /// unit at `base`.
    spec fn spec_config(
        source: Self::Source,
        factor_m: u8,
        factor_n: FactorN,
        base: usize,
    ) -> Access;

    /// Configure peripheral clock.
    ///
    /// Value `factor_m` should be in 0 ..= 15.
    fn config<A: BaseAddress>(
        source: Self::Source,
        factor_m: u8,
        factor_n: FactorN,
        ccu: &CCU<A>,
    ) -> (access: Access)
        requires
            Self::clocked(),
        ensures
            access == Self::spec_config(source, factor_m, factor_n, ccu.base()),
    ;
}

/// Universal Asynchronous Receiver-Transmitter clock gate.
///
/// UART peripheral should be indexed by type parameter `IDX`.
pub struct UART<const IDX: usize>;

impl<const I: usize> ClockGate for UART<I> {
    open spec fn indexed() -> bool {
        I < 16
    }

    open spec fn gating_register(base: usize) -> Register {
        Register { base, offset: 0x90c }
    }

    open spec fn gating_bits() -> u32 {
        gate_bit(I) | reset_bit(I)
    }

    #[inline]
    fn reset<A: BaseAddress>(ccu: &CCU<A>) -> (script: [Access; 2]) {
        let reg = ccu.registers().uart_bgr.reg;
        let bits: u32 = (1u32 << I) | (1u32 << (I + 16));
        [Access::Modify { reg, clear: bits, set: 0 }, Access::Modify { reg, clear: 0, set: bits }]
    }

    #[inline]
    fn free<A: BaseAddress>(ccu: &CCU<A>) -> (access: Access) {
        let reg = ccu.registers().uart_bgr.reg;
        let bits: u32 = (1u32 << I) | (1u32 << (I + 16));
        Access::Modify { reg, clear: bits, set: 0 }
    }
}

/// Serial Peripheral Interface clock gate.
pub struct SPI<const IDX: usize>;

impl<const I: usize> ClockGate for SPI<I> {
    open spec fn indexed() -> bool {
        I < 16
    }

    open spec fn gating_register(base: usize) -> Register {
        Register { base, offset: 0x96c }
    }

    open spec fn gating_bits() -> u32 {
        gate_bit(I) | reset_bit(I)
    }

    #[inline]
    fn reset<A: BaseAddress>(ccu: &CCU<A>) -> (script: [Access; 2]) {
        let reg = ccu.registers().spi_bgr.reg;
        let bits: u32 = (1u32 << I) | (1u32 << (I + 16));
        [Access::Modify { reg, clear: bits, set: 0 }, Access::Modify { reg, clear: 0, set: bits }]
    }

    #[inline]
    fn free<A: BaseAddress>(ccu: &CCU<A>) -> (access: Access) {
        let reg = ccu.registers().spi_bgr.reg;
        let bits: u32 = (1u32 << I) | (1u32 << (I + 16));
        Access::Modify { reg, clear: bits, set: 0 }
    }
}

impl<const I: usize> ClockConfig for SPI<I> {
    type Source = ClockSource;

    open spec fn clocked() -> bool {
        I < 2
    }

    open spec fn spec_config(
        source: ClockSource,
        factor_m: u8,
        factor_n: FactorN,
        base: usize,
    ) -> Access {
        Access::Modify {
            reg: Register { base, offset: (0x940 + 4 * I) as usize },
            clear: 0x0700_030f,
            set: (source.code() << 24u32) | (factor_m as u32) | (factor_n.code() << 8u32),
        }
    }

    fn config<A: BaseAddress>(
        source: ClockSource,
        factor_m: u8,
        factor_n: FactorN,
        ccu: &CCU<A>,
    ) -> (access: Access) {
        let reg = ccu.registers().spi_clk[I].reg;
        let source: u32 = match source {
            ClockSource::Hosc => 0x0,
            ClockSource::PllPeri1x => 0x1,
            ClockSource::PllPeri2x => 0x2,
            ClockSource::PllAudio1Div2 => 0x3,
            ClockSource::PllAudio1Div5 => 0x4,
        };
        let factor_n: u32 = match factor_n {
            FactorN::N1 => 0,
            FactorN::N2 => 1,
            FactorN::N4 => 2,
            FactorN::N8 => 3,
        };
        Access::Modify {
            reg,
            clear: 0x0700_030f,
            set: (source << 24) | (factor_m as u32) | (factor_n << 8),
        }
    }
}

/// The access that closes the clock gate of peripheral `i` and asserts its
/// reset line.
pub open spec fn spec_close(reg: Register, i: usize) -> Access {
    Access::Modify { reg, clear: gate_bit(i) | reset_bit(i), set: 0 }
}

/// The access that opens the clock gate of peripheral `i` and releases its
/// reset line.
pub open spec fn spec_open(reg: Register, i: usize) -> Access {
    Access::Modify { reg, clear: 0, set: gate_bit(i) | reset_bit(i) }
}

/// The bit-level facts behind the protocol of the clock gates.
proof fn lemma_gating(word: u32, i: u32)
    by (bit_vector)
    requires
        i < 16,
    ensures
        (word & !((1u32 << i) | (1u32 << ((i + 16) as u32)))) | 0 == (word & !(1u32 << i)) & !(1u32
            << ((i + 16) as u32)),
        (word & !0u32) | ((1u32 << i) | (1u32 << ((i + 16) as u32))) == (word | (1u32 << i)) | (
        1u32 << ((i + 16) as u32)),
        ((word & !(1u32 << i)) & !(1u32 << ((i + 16) as u32))) & (1u32 << i) == 0,
        ((word & !(1u32 << i)) & !(1u32 << ((i + 16) as u32))) & (1u32 << ((i + 16) as u32)) == 0,
        ((word | (1u32 << i)) | (1u32 << ((i + 16) as u32))) & (1u32 << i) != 0,
        ((word | (1u32 << i)) | (1u32 << ((i + 16) as u32))) & (1u32 << ((i + 16) as u32)) != 0,
        ((word & !(1u32 << i)) & !(1u32 << ((i + 16) as u32))) & !((1u32 << i) | (1u32 << ((i + 16)
            as u32))) == word & !((1u32 << i) | (1u32 << ((i + 16) as u32))),
        ((word | (1u32 << i)) | (1u32 << ((i + 16) as u32))) & !((1u32 << i) | (1u32 << ((i + 16)
            as u32))) == word & !((1u32 << i) | (1u32 << ((i + 16) as u32))),
{
}

/// Closing a clock gate is masking the clock and asserting the reset: the
/// register then holds what it held with the gating bit and the reset bit
/// of the peripheral clear, and every other bit as it was.
pub proof fn lemma_close_masks_and_asserts(reg: Register, i: usize, before: u32)
    requires
        i < 16,
    ensures
        spec_close(reg, i).stored(before) == (before & !gate_bit(i)) & !reset_bit(i),
        spec_close(reg, i).stored(before) & gate_bit(i) == 0,
        spec_close(reg, i).stored(before) & reset_bit(i) == 0,
        spec_close(reg, i).stored(before) & !(gate_bit(i) | reset_bit(i)) == before & !(gate_bit(i)
            | reset_bit(i)),
{
    lemma_gating(before, i as u32);
}

/// Opening a clock gate is passing the clock and releasing the reset: the
/// register then holds what it held with the gating bit and the reset bit
/// of the peripheral set, and every other bit as it was.
pub proof fn lemma_open_passes_and_releases(reg: Register, i: usize, before: u32)
    requires
        i < 16,
    ensures
        spec_open(reg, i).stored(before) == (before | gate_bit(i)) | reset_bit(i),
        spec_open(reg, i).stored(before) & gate_bit(i) != 0,
        spec_open(reg, i).stored(before) & reset_bit(i) != 0,
        spec_open(reg, i).stored(before) & !(gate_bit(i) | reset_bit(i)) == before & !(gate_bit(i)
            | reset_bit(i)),
{
    lemma_gating(before, i as u32);
}

/// A reset leaves the peripheral with its clock passed and its reset line
/// released, whatever the register held, and touches no other peripheral:
/// the two accesses of the protocol, one after the other.
pub proof fn lemma_reset_protocol(reg: Register, i: usize, before: u32)
    requires
        i < 16,
    ensures
        ({
            let between = spec_close(reg, i).stored(before);
            let after = spec_open(reg, i).stored(between);
            &&& between & gate_bit(i) == 0
            &&& between & reset_bit(i) == 0
            &&& after & gate_bit(i) != 0
            &&& after & reset_bit(i) != 0
            &&& after & !(gate_bit(i) | reset_bit(i)) == before & !(gate_bit(i) | reset_bit(i))
        }),
{
    lemma_close_masks_and_asserts(reg, i, before);
    lemma_open_passes_and_releases(reg, i, spec_close(reg, i).stored(before));
}

/// The bit-level facts behind the configuration of an SPI clock.
proof fn lemma_clock_fields(word: u32, source: u32, m: u32, n: u32)
    by (bit_vector)
    requires
        source <= 4,
        m <= 255,
        n <= 3,
    ensures
        (word & !0x0700_030fu32) | ((source << 24u32) | m | (n << 8u32)) == (((((word
            & !0x0700_0000u32) | (source << 24u32)) & !0x0000_000fu32) | m) & !0x0000_0300u32) | (n
            << 8u32),
        ((((word & !0x0700_030fu32) | ((source << 24u32) | m | (n << 8u32))) >> 24u32) & 0x7)
            == source,
        ((((word & !0x0700_030fu32) | ((source << 24u32) | m | (n << 8u32))) >> 8u32) & 0x3) == n,
        m <= 15 ==> ((word & !0x0700_030fu32) | ((source << 24u32) | m | (n << 8u32)))
            & 0x0000_000fu32 == m,
{
}

/// Configuring an SPI clock is setting the source, the factor M and the
/// factor N of what the register held, in this order; the fields read back
/// as they were set, the factor M as long as it is below 16.
pub proof fn lemma_config_sets_fields<const I: usize>(
    source: ClockSource,
    factor_m: u8,
    factor_n: FactorN,
    base: usize,
    before: SpiClk,
)
    ensures
        ({
            let access = <SPI<I> as ClockConfig>::spec_config(source, factor_m, factor_n, base);
            let after = access.stored(before@);
            &&& after == (((((before@ & !CLK_SRC_SEL) | (source.code() << 24u32)) & !FACTOR_M) | (
            factor_m as u32)) & !FACTOR_N) | (factor_n.code() << 8u32)
            &&& (after >> 24u32) & 0x7 == source.code()
            &&& (after >> 8u32) & 0x3 == factor_n.code()
            &&& factor_m <= 15 ==> after & FACTOR_M == factor_m
        }),
{
    lemma_clock_fields(before@, source.code(), factor_m as u32, factor_n.code());
}

} // verus!
