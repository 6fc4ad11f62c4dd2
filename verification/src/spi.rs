//! Serial Peripheral Interface bus.

use vstd::prelude::*;
use crate::base_address::{BaseAddress, Dynamic, Static};
use crate::bits::lemma_and_bounded;
use crate::ccu::{ClockConfig, ClockGate, ClockSource, Clocks, FactorN, CCU};
use crate::mmio::{Access, Register};
use crate::time::Hz;

verus! {

/// Serial Peripheral Interface bus.
pub struct SPI<A: BaseAddress> {
    base: A,
}

impl<A: BaseAddress> SPI<A> {
    /// The address the controller lies at.
    pub closed spec fn base(&self) -> usize {
        self.base.addr()
    }

    /// The registers of this controller.
    pub fn registers(&self) -> (block: RegisterBlock)
        ensures
            block.is_at(self.base()),
    {
        RegisterBlock::at(self.base.ptr())
    }
}

impl<const B: usize> SPI<Static<B>> {
    /// Takes the controller at the address `B`. Whoever calls this answers
    /// for there being no second handle to the same controller.
    #[inline]
    pub fn steal_static() -> (spi: SPI<Static<B>>)
        ensures
            spi.base() == B,
    {
        SPI { base: Static::<B> }
    }
}

impl SPI<Dynamic> {
    /// Takes the controller at `base`. Whoever calls this answers for there
    /// being no second handle to the same controller.
    #[inline]
    pub fn steal_dynamic(base: usize) -> (spi: SPI<Dynamic>)
        ensures
            spi.base() == base,
    {
        SPI { base: Dynamic::new(base) }
    }
}

/// Global control register.
#[derive(Clone, Copy, Debug, PartialEq, Eq, Structural)]
pub struct GCR {
    pub reg: Register,
}

impl GCR {
    /// The access that stores `val` in the register.
    #[inline]
    pub fn write(&self, val: GlobalControl) -> (access: Access)
        ensures
            access == (Access::Write { reg: self.reg, value: val@ }),
    {
        Access::Write { reg: self.reg, value: val.0 }
    }
}

/// Soft reset bit of the global control register.
pub const SRST: u32 = 0x8000_0000;

/// Transmit pause enable bit of the global control register.
pub const TP_EN: u32 = 0x0000_0080;

/// Mode bit of the global control register: set for master mode.
pub const MODE: u32 = 0x0000_0002;

/// Enable bit of the global control register.
pub const EN: u32 = 0x0000_0001;

/// Global control for current peripheral.
#[derive(Clone, Copy, Debug, PartialEq, Eq)]
pub struct GlobalControl(u32);

impl View for GlobalControl {
    type V = u32;

    closed spec fn view(&self) -> u32 {
        self.0
    }
}

impl Default for GlobalControl {
    /// The control word with every bit clear.
    fn default() -> (val: Self)
        ensures
            val@ == 0,
    {
        GlobalControl(0)
    }
}

impl GlobalControl {
    /// Takes a word read from the register.
    #[inline]
    pub fn from_bits(bits: u32) -> (val: Self)
        ensures
            val@ == bits,
    {
        Self(bits)
    }

    /// The word to store in the register.
    #[inline]
    pub fn bits(self) -> (bits: u32)
        ensures
            bits == self@,
    {
        self.0
    }

    /// Perform software reset to the SPI controller.
    #[inline]
    pub fn software_reset(self) -> (val: Self)
        ensures
            val@ == self@ | SRST,
    {
        Self(self.0 | SRST)
    }

    /// Tests the soft reset bit. The controller clears the bit when the
    /// reset is through, so this is true for as long as it is still going
    /// on.
    #[inline]
    pub fn is_software_reset_finished(self) -> (r: bool)
        ensures
            r == (self@ & SRST != 0),
    {
        self.0 & SRST != 0
    }

    /// Set transmit pause enable flag.
    ///
    /// In master mode, if this flag is enabled, transmitting data will be
    /// stopped when receive FIFO is full.
    #[inline]
    pub fn set_transmit_pause_enable(self, val: bool) -> (ctl: Self)
        ensures
            ctl@ == (self@ & !TP_EN) | (if val { TP_EN } else { 0 }),
    {
        Self((self.0 & !TP_EN) | if val { TP_EN } else { 0 })
    }

    /// Check if transmit pause has enabled.
    #[inline]
    pub fn transmit_pause_enabled(self) -> (r: bool)
        ensures
            r == (self@ & TP_EN != 0),
    {
        self.0 & TP_EN != 0
    }

    /// Set this peripheral to operate on master mode.
    #[inline]
    pub fn set_master_mode(self) -> (val: Self)
        ensures
            val@ == self@ | MODE,
    {
        Self(self.0 | MODE)
    }

    /// Set this peripheral to operate on slave mode.
    #[inline]
    pub fn set_slave_mode(self) -> (val: Self)
        ensures
            val@ == self@ & !MODE,
    {
        Self(self.0 & !MODE)
    }

    /// Check if this peripheral operates on master mode.
    #[inline]
    pub fn is_master_mode(self) -> (r: bool)
        ensures
            r == (self@ & MODE != 0),
    {
        self.0 & MODE != 0
    }

    /// Check if this peripheral operates on slave mode.
    #[inline]
    pub fn is_slave_mode(self) -> (r: bool)
        ensures
            r == (self@ & MODE == 0),
    {
        self.0 & MODE == 0
    }

    /// Enable or disable this peripheral.
    #[inline]
    pub fn set_enabled(self, val: bool) -> (ctl: Self)
        ensures
            ctl@ == (self@ & !EN) | (if val { EN } else { 0 }),
    {
        Self((self.0 & !EN) | if val { EN } else { 0 })
    }

    /// Check if this peripheral is enabled.
    #[inline]
    pub fn is_enabled(self) -> (r: bool)
        ensures
            r == (self@ & EN != 0),
    {
        self.0 & EN != 0
    }
}

/// Transfer control register.
#[derive(Clone, Copy, Debug, PartialEq, Eq, Structural)]
pub struct TCR {
    pub reg: Register,
}

impl TCR {
    /// The access that stores `val` in the register.
    #[inline]
    pub fn write(&self, val: TransferControl) -> (access: Access)
        ensures
            access == (Access::Write { reg: self.reg, value: val@ }),
    {
        Access::Write { reg: self.reg, value: val.0 }
    }
}

/// Exchange burst bit of the transfer control register.
pub const XCH: u32 = 0x8000_0000;

/// Clock polarity bit of the transfer control register.
pub const CPOL: u32 = 0x0000_0002;

/// Clock phase bit of the transfer control register.
pub const CPHA: u32 = 0x0000_0001;

/// Level of the clock line while the bus is idle.
#[derive(Clone, Copy, Debug, PartialEq, Eq, Structural)]
pub enum Polarity {
    /// The clock idles low.
    IdleLow,
    /// The clock idles high.
    IdleHigh,
}

/// Clock edge on which data is captured.
#[derive(Clone, Copy, Debug, PartialEq, Eq, Structural)]
pub enum Phase {
    /// Data is captured on the first clock edge.
    CaptureOnFirstTransition,
    /// Data is captured on the second clock edge.
    CaptureOnSecondTransition,
}

/// Work mode of the bus.
#[derive(Clone, Copy, Debug, PartialEq, Eq, Structural)]
pub struct Mode {
    /// Clock polarity.
    pub polarity: Polarity,
    /// Clock phase.
    pub phase: Phase,
}

impl Mode {
    /// The polarity and phase bits that select this mode.
    pub open spec fn code(self) -> u32 {
        match (self.polarity, self.phase) {
            (Polarity::IdleLow, Phase::CaptureOnFirstTransition) => 0,
            (Polarity::IdleLow, Phase::CaptureOnSecondTransition) => 1,
            (Polarity::IdleHigh, Phase::CaptureOnFirstTransition) => 2,
            (Polarity::IdleHigh, Phase::CaptureOnSecondTransition) => 3,
        }
    }
}

/// Transfer control for current peripheral.
#[derive(Clone, Copy, Debug, PartialEq, Eq)]
pub struct TransferControl(u32);

impl View for TransferControl {
    type V = u32;

    closed spec fn view(&self) -> u32 {
        self.0
    }
}

impl Default for TransferControl {
    /// The control word with every bit clear.
    fn default() -> (val: Self)
        ensures
            val@ == 0,
    {
        TransferControl(0)
    }
}

impl TransferControl {
    /// Takes a word read from the register.
    #[inline]
    pub fn from_bits(bits: u32) -> (val: Self)
        ensures
            val@ == bits,
    {
        Self(bits)
    }

    /// The word to store in the register.
    #[inline]
    pub fn bits(self) -> (bits: u32)
        ensures
            bits == self@,
    {
        self.0
    }

    /// Check if burst exchange has finished.
    #[inline]
    pub fn burst_finished(self) -> (r: bool)
        ensures
            r == (self@ & XCH == 0),
    {
        self.0 & XCH == 0
    }

    /// Initiates burst exchange.
    #[inline]
    pub fn start_burst_exchange(self) -> (val: Self)
        ensures
            val@ == self@ | XCH,
    {
        Self(self.0 | XCH)
    }

    /// Sets SPI work mode.
    #[inline]
    pub fn set_work_mode(self, mode: Mode) -> (val: Self)
        ensures
            val@ == (self@ & !0x3u32) | mode.code(),
    {
        let code: u32 = match mode.polarity {
            Polarity::IdleLow => match mode.phase {
                Phase::CaptureOnFirstTransition => 0,
                Phase::CaptureOnSecondTransition => 1,
            },
            Polarity::IdleHigh => match mode.phase {
                Phase::CaptureOnFirstTransition => 2,
                Phase::CaptureOnSecondTransition => 3,
            },
        };
        Self((self.0 & !0x3u32) | code)
    }
}

/// FIFO status register.
#[derive(Clone, Copy, Debug, PartialEq, Eq, Structural)]
pub struct FSR {
    pub reg: Register,
}

/// Status of FIFO for current peripheral.
#[derive(Clone, Copy, Debug, PartialEq, Eq)]
pub struct FifoStatus(u32);

impl View for FifoStatus {
    type V = u32;

    closed spec fn view(&self) -> u32 {
        self.0
    }
}

impl FifoStatus {
    /// Takes a word read from the register.
    #[inline]
    pub fn from_bits(bits: u32) -> (val: Self)
        ensures
            val@ == bits,
    {
        Self(bits)
    }

    /// Tests the write enable flag of the transmit buffer.
    #[inline]
    pub fn transmit_buffer_write_enable(self) -> (r: bool)
        ensures
            r == (self@ & 0x8000_0000 != 0),
    {
        self.0 & 0x8000_0000 != 0
    }

    /// Number of words in the transmit buffer.
    #[inline]
    pub fn transmit_buffer_counter(self) -> (n: u8)
        ensures
            n == (self@ >> 28u32) & 0x7,
    {
        proof {
            lemma_and_bounded(self.0 >> 28u32, 0x7);
        }
        ((self.0 >> 28) & 0x7) as u8
    }

    /// Number of bytes in the transmit FIFO.
    #[inline]
    pub fn transmit_fifo_counter(self) -> (n: u8)
        ensures
            n == (self@ >> 16u32) & 0xff,
    {
        proof {
            lemma_and_bounded(self.0 >> 16u32, 0xff);
        }
        ((self.0 >> 16) & 0xff) as u8
    }

    /// Tests the write enable flag of the receive buffer.
    #[inline]
    pub fn receive_buffer_write_enable(self) -> (r: bool)
        ensures
            r == (self@ & 0x0000_8000 != 0),
    {
        self.0 & 0x0000_8000 != 0
    }

    /// Number of words in the receive buffer.
    #[inline]
    pub fn receive_buffer_counter(self) -> (n: u8)
        ensures
            n == (self@ >> 12u32) & 0x7,
    {
        proof {
            lemma_and_bounded(self.0 >> 12u32, 0x7);
        }
        ((self.0 >> 12) & 0x7) as u8
    }

    /// Number of bytes in the receive FIFO.
    #[inline]
    pub fn receive_fifo_counter(self) -> (n: u8)
        ensures
            n == self@ & 0xff,
    {
        proof {
            lemma_and_bounded(self.0, 0xff);
        }
        (self.0 & 0xff) as u8
    }
}

/// Master burst counter register.
///
/// In master mode, this field specifies the total burst number.
/// The total transfer data include transmit, receive parts and
/// dummy burst.
#[derive(Clone, Copy, Debug, PartialEq, Eq, Structural)]
pub struct MBC {
    pub reg: Register,
}

impl MBC {
    /// The access that stores the burst count `val` in the register.
    #[inline]
    pub fn write(&self, val: u32) -> (access: Access)
        ensures
            access == (Access::Write { reg: self.reg, value: val }),
    {
        Access::Write { reg: self.reg, value: val }
    }
}

/// Master transmit counter register.
#[derive(Clone, Copy, Debug, PartialEq, Eq, Structural)]
pub struct MTC {
    pub reg: Register,
}

impl MTC {
    /// The access that stores the transmit count `val` in the register.
    #[inline]
    pub fn write(&self, val: u32) -> (access: Access)
        ensures
            access == (Access::Write { reg: self.reg, value: val }),
    {
        Access::Write { reg: self.reg, value: val }
    }
}

/// Burst control counter register.
#[derive(Clone, Copy, Debug, PartialEq, Eq, Structural)]
pub struct BCC {
    pub reg: Register,
}

impl BCC {
    /// The access that stores `val` in the register.
    #[inline]
    pub fn write(&self, val: BurstControl) -> (access: Access)
        ensures
            access == (Access::Write { reg: self.reg, value: val@ }),
    {
        Access::Write { reg: self.reg, value: val.0 }
    }
}

/// Quad mode enable bit of the burst control counter register.
pub const QUAD_EN: u32 = 0x2000_0000;

/// Mask of the dummy burst counter field.
pub const DBC: u32 = 0x0f00_0000;

/// Mask of the single mode transmit counter field.
pub const STC: u32 = 0x0000_0fff;

/// Burst control counter for current peripheral.
#[derive(Clone, Copy, Debug, PartialEq, Eq)]
pub struct BurstControl(u32);

impl View for BurstControl {
    type V = u32;

    closed spec fn view(&self) -> u32 {
        self.0
    }
}

impl BurstControl {
    /// Takes a word read from the register.
    #[inline]
    pub fn from_bits(bits: u32) -> (val: Self)
        ensures
            val@ == bits,
    {
        Self(bits)
    }

    /// The word to store in the register.
    #[inline]
    pub fn bits(self) -> (bits: u32)
        ensures
            bits == self@,
    {
        self.0
    }

    /// Enable quad mode.
    #[inline]
    pub fn quad_mode_enable(self) -> (val: Self)
        ensures
            val@ == self@ | QUAD_EN,
    {
        Self(self.0 | QUAD_EN)
    }

    /// Disable quad mode.
    #[inline]
    pub fn quad_mode_disable(self) -> (val: Self)
        ensures
            val@ == self@ & !QUAD_EN,
    {
        Self(self.0 & !QUAD_EN)
    }

    /// Check if quad mode is enabled.
    #[inline]
    pub fn is_quad_mode_enabled(self) -> (r: bool)
        ensures
            r == (self@ & QUAD_EN != 0),
    {
        self.0 & QUAD_EN != 0
    }

    /// Number of dummy bursts in master mode.
    #[inline]
    pub fn master_dummy_burst_counter(self) -> (n: u8)
        ensures
            n == (self@ >> 24u32) & 0xf,
    {
        proof {
            lemma_and_bounded(self.0 >> 24u32, 0xf);
        }
        ((self.0 >> 24) & 0xf) as u8
    }

    /// Sets the number of dummy bursts in master mode; the low four bits of
    /// `val` count.
    #[inline]
    pub fn set_master_dummy_burst_counter(self, val: u8) -> (ctl: Self)
        ensures
            ctl@ == (self@ & !DBC) | (((val as u32) & 0xf) << 24u32),
    {
        Self((self.0 & !DBC) | ((val as u32 & 0xf) << 24))
    }

    /// Number of bursts to transmit in single mode.
    #[inline]
    pub fn master_single_mode_transmit_counter(self) -> (n: u32)
        ensures
            n == self@ & STC,
    {
        self.0 & STC
    }

    /// Sets the number of bursts to transmit in single mode; the low twelve
    /// bits of `val` count.
    #[inline]
    pub fn set_master_single_mode_transmit_counter(self, val: u32) -> (ctl: Self)
        ensures
            ctl@ == (self@ & !STC) | (val & 0xfff),
    {
        Self((self.0 & !STC) | (val & 0xfff))
    }
}

/// Transmit data register.
#[derive(Clone, Copy, Debug, PartialEq, Eq, Structural)]
pub struct TXD {
    pub reg: Register,
}

impl TXD {
    /// The access that hands one byte to the transmit FIFO.
    #[inline]
    pub fn write_u8(&self, val: u8) -> (access: Access)
        ensures
            access == (Access::WriteByte { reg: self.reg, byte: val }),
    {
        Access::WriteByte { reg: self.reg, byte: val }
    }

    /// The access that hands two bytes to the transmit FIFO.
    #[inline]
    pub fn write_u16(&self, val: u16) -> (access: Access)
        ensures
            access == (Access::WriteHalf { reg: self.reg, half: val }),
    {
        Access::WriteHalf { reg: self.reg, half: val }
    }

    /// The access that hands four bytes to the transmit FIFO.
    #[inline]
    pub fn write_u32(&self, val: u32) -> (access: Access)
        ensures
            access == (Access::Write { reg: self.reg, value: val }),
    {
        Access::Write { reg: self.reg, value: val }
    }
}

/// Receive data register.
#[derive(Clone, Copy, Debug, PartialEq, Eq, Structural)]
pub struct RXD {
    pub reg: Register,
}

impl RXD {
    /// The access that takes one byte from the receive FIFO.
    #[inline]
    pub fn read_u8(&self) -> (access: Access)
        ensures
            access == (Access::ReadByte { reg: self.reg }),
    {
        Access::ReadByte { reg: self.reg }
    }

    /// The access that takes two bytes from the receive FIFO.
    #[inline]
    pub fn read_u16(&self) -> (access: Access)
        ensures
            access == (Access::ReadHalf { reg: self.reg }),
    {
        Access::ReadHalf { reg: self.reg }
    }

    /// The access that takes four bytes from the receive FIFO.
    #[inline]
    pub fn read_u32(&self) -> (access: Access)
        ensures
            access == (Access::Read { reg: self.reg }),
    {
        Access::Read { reg: self.reg }
    }
}

/// The registers of an SPI controller.
#[derive(Clone, Copy, Debug)]
pub struct RegisterBlock {
    pub gcr: GCR,
    pub tcr: TCR,
    pub ier: Register,
    pub isr: Register,
    pub fcr: Register,
    pub fsr: FSR,
    pub wcr: Register,
    pub samp_dl: Register,
    pub mbc: MBC,
    pub mtc: MTC,
    pub bcc: BCC,
    pub batcr: Register,
    pub ba_ccr: Register,
    pub tbr: Register,
    pub rbr: Register,
    pub ndma_mode_ctl: Register,
    pub txd: TXD,
    pub rxd: RXD,
}

impl RegisterBlock {
    /// Whether this is the register block of the controller at `base`:
    /// every register lies at its hardware offset.
    pub open spec fn is_at(self, base: usize) -> bool {
        &&& self.gcr.reg == (Register { base, offset: 0x04 })
        &&& self.tcr.reg == (Register { base, offset: 0x08 })
        &&& self.ier == (Register { base, offset: 0x10 })
        &&& self.isr == (Register { base, offset: 0x14 })
        &&& self.fcr == (Register { base, offset: 0x18 })
        &&& self.fsr.reg == (Register { base, offset: 0x1c })
        &&& self.wcr == (Register { base, offset: 0x20 })
        &&& self.samp_dl == (Register { base, offset: 0x28 })
        &&& self.mbc.reg == (Register { base, offset: 0x30 })
        &&& self.mtc.reg == (Register { base, offset: 0x34 })
        &&& self.bcc.reg == (Register { base, offset: 0x38 })
        &&& self.batcr == (Register { base, offset: 0x40 })
        &&& self.ba_ccr == (Register { base, offset: 0x44 })
        &&& self.tbr == (Register { base, offset: 0x48 })
        &&& self.rbr == (Register { base, offset: 0x4c })
        &&& self.ndma_mode_ctl == (Register { base, offset: 0x88 })
        &&& self.txd.reg == (Register { base, offset: 0x200 })
        &&& self.rxd.reg == (Register { base, offset: 0x300 })
    }

    /// The register block of the controller at `base`.
    pub fn at(base: usize) -> (block: Self)
        ensures
            block.is_at(base),
    {
        RegisterBlock {
            gcr: GCR { reg: Register { base, offset: 0x04 } },
            tcr: TCR { reg: Register { base, offset: 0x08 } },
            ier: Register { base, offset: 0x10 },
            isr: Register { base, offset: 0x14 },
            fcr: Register { base, offset: 0x18 },
            fsr: FSR { reg: Register { base, offset: 0x1c } },
            wcr: Register { base, offset: 0x20 },
            samp_dl: Register { base, offset: 0x28 },
            mbc: MBC { reg: Register { base, offset: 0x30 } },
            mtc: MTC { reg: Register { base, offset: 0x34 } },
            bcc: BCC { reg: Register { base, offset: 0x38 } },
            batcr: Register { base, offset: 0x40 },
            ba_ccr: Register { base, offset: 0x44 },
            tbr: Register { base, offset: 0x48 },
            rbr: Register { base, offset: 0x4c },
            ndma_mode_ctl: Register { base, offset: 0x88 },
            txd: TXD { reg: Register { base, offset: 0x200 } },
            rxd: RXD { reg: Register { base, offset: 0x300 } },
        }
    }
}

/// How far the clock that the divide factors `n` and `m` give is from the
/// frequency asked for.
pub open spec fn spec_error(psi: u32, freq: u32, n: FactorN, m: int) -> int {
    let actual = (psi as int / n.divisor() as int) / m;
    if actual >= freq {
        actual - freq
    } else {
        freq - actual
    }
}

/// Place of a pair of divide factors in the order in which they are tried:
/// `m` from 1 to 16, and for each `m` the four factors `n`, smallest first.
pub open spec fn rank(n: FactorN, m: int) -> int {
    (m - 1) * 4 + n.code()
}

/// Whether `best` is no worse than every pair tried before place `limit`,
/// and better than every pair tried before place `first`.
pub open spec fn beats(psi: u32, freq: u32, best: int, first: int, limit: int) -> bool {
    forall|n: FactorN, m: int|
        1 <= m <= 16 && rank(n, m) < limit ==> {
            let other = #[trigger] spec_error(psi, freq, n, m);
            best <= other && (rank(n, m) < first ==> best < other)
        }
}

/// Whether `n` and `m` are the divide factors to take: they come closer
/// than `psi` to the frequency asked for, no pair comes closer, and no pair
/// tried before them comes as close.
pub open spec fn is_best(psi: u32, freq: u32, n: FactorN, m: int) -> bool {
    &&& 1 <= m <= 16
    &&& spec_error(psi, freq, n, m) < psi
    &&& beats(psi, freq, spec_error(psi, freq, n, m), rank(n, m), 64)
}

/// Whether no pair of divide factors comes closer than `psi` to the
/// frequency asked for.
pub open spec fn none_close(psi: u32, freq: u32) -> bool {
    beats(psi, freq, psi as int, 0, 64)
}

/// Searches the divide factors that bring the PSI clock `psi` closest to
/// `freq`.
///
/// Returns the factor N and the value of the factor M field, which is one
/// less than the number it divides by. Returns `None` if and only if no pair
/// comes closer than `psi` itself.
pub fn clock_factors(psi: u32, freq: u32) -> (found: Option<(FactorN, u8)>)
    ensures
        match found {
            Some((n, m)) => is_best(psi, freq, n, m + 1),
            None => none_close(psi, freq),
        },
{
    let mut err: u32 = psi;
    let mut best: Option<(FactorN, u8)> = None;
    let mut m: u8 = 1;
    while m <= 16
        invariant
            1 <= m <= 17,
            err <= psi,
            match best {
                Some((n, field)) => {
                    &&& 1 <= field + 1 <= 16
                    &&& err == spec_error(psi, freq, n, field + 1)
                    &&& err < psi
                    &&& rank(n, field + 1) < (m - 1) * 4
                    &&& beats(psi, freq, err as int, rank(n, field + 1), (m - 1) * 4)
                },
                None => err == psi && beats(psi, freq, psi as int, 0, (m - 1) * 4),
            },
        decreases 17 - m,
    {
        let mut j: u8 = 0;
        while j < 4
            invariant
                1 <= m <= 16,
                j <= 4,
                err <= psi,
                match best {
                    Some((n, field)) => {
                        &&& 1 <= field + 1 <= 16
                        &&& err == spec_error(psi, freq, n, field + 1)
                        &&& err < psi
                        &&& rank(n, field + 1) < (m - 1) * 4 + j
                        &&& beats(psi, freq, err as int, rank(n, field + 1), (m - 1) * 4 + j)
                    },
                    None => err == psi && beats(psi, freq, psi as int, 0, (m - 1) * 4 + j),
                },
            decreases 4 - j,
        {
            let n = FactorN::from_code(j);
            let actual: u32 = psi / n.divide_by() / (m as u32);
            let e: u32 = if actual >= freq {
                actual - freq
            } else {
                freq - actual
            };
            if e < err {
                err = e;
                best = Some((n, m - 1));
            }
            j += 1;
        }
        m += 1;
    }
    best
}

/// A clock that runs and a frequency below twice that clock always have
/// divide factors that come closer than the clock itself.
pub proof fn lemma_factors_exist(psi: u32, freq: u32)
    requires
        psi > 0,
        freq < 2 * psi,
    ensures
        !none_close(psi, freq),
{
    if none_close(psi, freq) {
        if freq > 0 {
            assert((psi as int / 1) / 1 == psi);
            assert(spec_error(psi, freq, FactorN::N1, 1) < psi);
        } else {
            assert(spec_error(psi, freq, FactorN::N8, 16) == (psi as int / 8) / 16);
        }
    }
}

/// Valid SPI pins.
pub trait Pins<const I: usize> {
    /// The clock gate and clock configuration of the controller that the
    /// pins belong to.
    type Clock: ClockGate + ClockConfig<Source = ClockSource>;
}

/// Valid clk pin for SPI peripheral.
pub trait Clk<const I: usize> {
}

/// Valid mosi pin for SPI peripheral.
pub trait Mosi<const I: usize> {
}

/// Valid miso pin for SPI peripheral.
pub trait Miso<const I: usize> {
}

impl<const I: usize, CLK, MOSI, MISO> Pins<I> for (CLK, MOSI, MISO) where
    CLK: Clk<I>,
    MOSI: Mosi<I>,
    MISO: Miso<I>,
 {
    type Clock = crate::ccu::SPI<I>;
}

/// Mask of the two highest bits of the transmit FIFO counter. One of them
/// is set exactly when more than 63 bytes wait in the FIFO.
pub const TRANSMIT_FIFO_FULL: u32 = 0x00c0_0000;

/// Mask of the receive FIFO counter.
pub const RECEIVE_FIFO_COUNT: u32 = 0x0000_00ff;

/// The accesses that announce a burst to the controller at `base`: the
/// total number of bytes, the number of bytes to transmit, no dummy bursts,
/// and the start of the exchange.
pub open spec fn spec_announce(base: usize, total: u32, transmit: u32) -> Seq<Access> {
    seq![
        Access::Write { reg: Register { base, offset: 0x30 }, value: total },
        Access::Write { reg: Register { base, offset: 0x34 }, value: transmit },
        Access::Modify {
            reg: Register { base, offset: 0x38 },
            clear: 0x0f00_0fff,
            set: transmit & 0xfff,
        },
        Access::Modify { reg: Register { base, offset: 0x08 }, clear: 0, set: XCH },
    ]
}

/// The accesses that send `bytes`: for each byte, wait until the transmit
/// FIFO has room, then hand the byte to it.
pub open spec fn spec_send(base: usize, bytes: Seq<u8>) -> Seq<Access> {
    Seq::new(
        2 * bytes.len(),
        |k: int|
            if k % 2 == 0 {
                Access::WaitClear { reg: Register { base, offset: 0x1c }, mask: TRANSMIT_FIFO_FULL }
            } else {
                Access::WriteByte { reg: Register { base, offset: 0x200 }, byte: bytes[k / 2] }
            },
    )
}

/// The accesses that receive `count` bytes: for each byte, wait until the
/// receive FIFO holds one, then take it.
pub open spec fn spec_receive(base: usize, count: nat) -> Seq<Access> {
    Seq::new(
        2 * count,
        |k: int|
            if k % 2 == 0 {
                Access::WaitSet { reg: Register { base, offset: 0x1c }, mask: RECEIVE_FIFO_COUNT }
            } else {
                Access::ReadByte { reg: Register { base, offset: 0x300 } }
            },
    )
}

/// The accesses of a whole burst that sends `bytes` and then receives
/// `count` bytes.
pub open spec fn spec_burst(base: usize, total: u32, bytes: Seq<u8>, count: nat) -> Seq<Access> {
    spec_announce(base, total, bytes.len() as u32) + spec_send(base, bytes) + spec_receive(
        base,
        count,
    )
}

/// The accesses that bring up the controller at `spi` for the pins `PINS`,
/// with its clock taken from the unit at `ccu`.
pub open spec fn spec_setup<const I: usize, PINS: Pins<I>>(
    spi: usize,
    ccu: usize,
    n: FactorN,
    m: u8,
    mode: Mode,
) -> Seq<Access> {
    seq![
        <PINS::Clock as ClockConfig>::spec_config(ClockSource::PllPeri1x, m, n, ccu),
        Access::Modify {
            reg: <PINS::Clock as ClockGate>::gating_register(ccu),
            clear: <PINS::Clock as ClockGate>::gating_bits(),
            set: 0,
        },
        Access::Modify {
            reg: <PINS::Clock as ClockGate>::gating_register(ccu),
            clear: 0,
            set: <PINS::Clock as ClockGate>::gating_bits(),
        },
        Access::Write { reg: Register { base: spi, offset: 0x04 }, value: 0x8000_0083 },
        Access::WaitClear { reg: Register { base: spi, offset: 0x04 }, mask: SRST },
        Access::Write { reg: Register { base: spi, offset: 0x08 }, value: mode.code() },
    ]
}

/// Managed SPI structure with peripheral and pins.
pub struct Spi<A: BaseAddress, const I: usize, PINS: Pins<I>> {
    spi: SPI<A>,
    pins: PINS,
}

impl<A: BaseAddress, const I: usize, PINS: Pins<I>> Spi<A, I, PINS> {
    /// The address the controller lies at.
    pub closed spec fn base(&self) -> usize {
        self.spi.base()
    }

    /// Create an SPI instance.
    ///
    /// Returns the instance and the accesses that bring the controller up:
    /// select the clock with the divide factors closest to `freq`, reset the
    /// controller through its clock gate, enable it as a master that pauses
    /// when the receive FIFO is full, reset it by software and wait for
    /// that to end, and set the work mode.
    pub fn new<A1: BaseAddress>(
        spi: SPI<A>,
        pins: PINS,
        mode: Mode,
        freq: Hz,
        clocks: &Clocks,
        ccu: &CCU<A1>,
    ) -> (made: (Self, [Access; 6]))
        requires
            <PINS::Clock as ClockGate>::indexed(),
            <PINS::Clock as ClockConfig>::clocked(),
            clocks.psi.0 > 0,
            freq.0 < 2 * clocks.psi.0,
        ensures
            made.0.base() == spi.base(),
            made.0.pins() == pins,
            exists|n: FactorN, m: u8|
                is_best(clocks.psi.0, freq.0, n, m + 1) && made.1@ == #[trigger] spec_setup::<
                    I,
                    PINS,
                >(spi.base(), ccu.base(), n, m, mode),
    {
        let found = clock_factors(clocks.psi.0, freq.0);
        proof {
            lemma_factors_exist(clocks.psi.0, freq.0);
        }
        let (factor_n, factor_m) = match found {
            Some(pair) => pair,
            None => (FactorN::N1, 0),
        };
        let config = PINS::Clock::config(ClockSource::PllPeri1x, factor_m, factor_n, ccu);
        let reset = PINS::Clock::reset(ccu);
        let regs = spi.registers();
        let control = GlobalControl::default().set_enabled(true).set_master_mode()
            .set_transmit_pause_enable(true).software_reset();
        proof {
            lemma_startup_word();
        }
        let work = TransferControl::default().set_work_mode(mode);
        proof {
            lemma_work_word(mode);
        }
        let script = [
            config,
            reset[0],
            reset[1],
            regs.gcr.write(control),
            Access::WaitClear { reg: regs.gcr.reg, mask: SRST },
            regs.tcr.write(work),
        ];
        proof {
            assert(script@ =~= spec_setup::<I, PINS>(
                spi.base(),
                ccu.base(),
                factor_n,
                factor_m,
                mode,
            ));
        }
        (Spi { spi, pins }, script)
    }

    /// Close SPI and release peripheral. Returns the peripheral, the pins
    /// and the access that closes the clock gate.
    #[inline]
    pub fn free<A1: BaseAddress>(self, ccu: &CCU<A1>) -> (parts: (SPI<A>, PINS, Access))
        requires
            <PINS::Clock as ClockGate>::indexed(),
        ensures
            parts.0.base() == self.base(),
            parts.1 == self.pins(),
            parts.2 == (Access::Modify {
                reg: <PINS::Clock as ClockGate>::gating_register(ccu.base()),
                clear: <PINS::Clock as ClockGate>::gating_bits(),
                set: 0,
            }),
    {
        let access = PINS::Clock::free(ccu);
        (self.spi, self.pins, access)
    }

    /// The pins of this instance.
    pub closed spec fn pins(self) -> PINS {
        self.pins
    }

    /// The registers of the controller.
    pub fn registers(&self) -> (block: RegisterBlock)
        ensures
            block.is_at(self.base()),
    {
        self.spi.registers()
    }

    /// Builds the accesses of a burst.
    fn burst(&self, total: u32, write: &[u8], read_len: usize) -> (script: Vec<Access>)
        requires
            write.len() <= u32::MAX,
        ensures
            script@ == spec_burst(self.base(), total, write@, read_len as nat),
    {
        let regs = self.spi.registers();
        let transmit: u32 = write.len() as u32;
        let mut script: Vec<Access> = Vec::new();
        script.push(regs.mbc.write(total));
        script.push(regs.mtc.write(transmit));
        script.push(
            Access::Modify { reg: regs.bcc.reg, clear: 0x0f00_0fff, set: transmit & 0xfff },
        );
        script.push(Access::Modify { reg: regs.tcr.reg, clear: 0, set: XCH });
        let ghost base = self.base();
        let mut i: usize = 0;
        while i < write.len()
            invariant
                i <= write.len(),
                regs.is_at(base),
                script@ == spec_announce(base, total, transmit) + spec_send(
                    base,
                    write@.subrange(0, i as int),
                ),
            decreases write.len() - i,
        {
            script.push(Access::WaitClear { reg: regs.fsr.reg, mask: TRANSMIT_FIFO_FULL });
            script.push(regs.txd.write_u8(write[i]));
            i += 1;
        }
        let mut k: usize = 0;
        while k < read_len
            invariant
                k <= read_len,
                regs.is_at(base),
                script@ == spec_announce(base, total, transmit) + spec_send(base, write@)
                    + spec_receive(base, k as nat),
            decreases read_len - k,
        {
            script.push(Access::WaitSet { reg: regs.fsr.reg, mask: RECEIVE_FIFO_COUNT });
            script.push(regs.rxd.read_u8());
            k += 1;
        }
        script
    }

    /// The accesses that send `write` and then receive `read_len` bytes in
    /// one burst.
    pub fn transfer(&self, read_len: usize, write: &[u8]) -> (script: Vec<Access>)
        requires
            read_len + write.len() <= u32::MAX,
        ensures
            script@ == spec_burst(
                self.base(),
                (read_len + write.len()) as u32,
                write@,
                read_len as nat,
            ),
    {
        self.burst((read_len + write.len()) as u32, write, read_len)
    }

    /// The accesses that send `words` and then receive as many bytes in one
    /// burst.
    pub fn transfer_in_place(&self, words: &[u8]) -> (script: Vec<Access>)
        requires
            words.len() * 2 <= u32::MAX,
        ensures
            script@ == spec_burst(
                self.base(),
                (words.len() * 2) as u32,
                words@,
                words.len() as nat,
            ),
    {
        self.burst((words.len() * 2) as u32, words, words.len())
    }

    /// The accesses that receive `len` bytes in one burst.
    pub fn read(&self, len: usize) -> (script: Vec<Access>)
        requires
            len <= u32::MAX,
        ensures
            script@ == spec_burst(self.base(), len as u32, Seq::<u8>::empty(), len as nat),
    {
        let nothing: [u8; 0] = [];
        self.burst(len as u32, nothing.as_slice(), len)
    }

    /// The accesses that send `words` in one burst.
    pub fn write(&self, words: &[u8]) -> (script: Vec<Access>)
        requires
            words.len() <= u32::MAX,
        ensures
            script@ == spec_burst(self.base(), words.len() as u32, words@, 0),
    {
        self.burst(words.len() as u32, words, 0)
    }

    /// The access that waits for the burst under way to end.
    pub fn flush(&self) -> (access: Access)
        ensures
            access == (Access::WaitClear {
                reg: Register { base: self.base(), offset: 0x08 },
                mask: XCH,
            }),
    {
        Access::WaitClear { reg: self.spi.registers().tcr.reg, mask: XCH }
    }
}

/// The control word that starts the controller: enabled, master mode,
/// transmit pause, and a software reset.
proof fn lemma_startup_word()
    ensures
        (((((0u32 & !EN) | EN) | MODE) & !TP_EN) | TP_EN) | SRST == 0x8000_0083,
{
    assert((((((0u32 & !0x1u32) | 0x1u32) | 0x2u32) & !0x80u32) | 0x80u32) | 0x8000_0000u32
        == 0x8000_0083u32) by (bit_vector);
}

/// The control word that sets a work mode and nothing else.
proof fn lemma_work_word(mode: Mode)
    ensures
        (0u32 & !0x3u32) | mode.code() == mode.code(),
{
    let code = mode.code();
    assert((0u32 & !0x3u32) | code == code) by (bit_vector);
}

/// The bit-level facts behind the announcement of a burst.
proof fn lemma_burst_fields(word: u32, transmit: u32)
    by (bit_vector)
    ensures
        (word & !0x0f00_0fffu32) | (transmit & 0xfff) == (((word & !0x0f00_0000u32) | ((0u32 & 0xf)
            << 24u32)) & !0x0000_0fffu32) | (transmit & 0xfff),
        (((word & !0x0f00_0fffu32) | (transmit & 0xfff)) >> 24u32) & 0xf == 0,
        ((word & !0x0f00_0fffu32) | (transmit & 0xfff)) & 0x0000_0fffu32 == transmit & 0xfff,
        ((word & !0x0f00_0fffu32) | (transmit & 0xfff)) & !0x0f00_0fffu32 == word & !0x0f00_0fffu32,
        (word & !0u32) | 0x8000_0000u32 == word | 0x8000_0000u32,
        (word & 0x00c0_0000u32 == 0) <==> ((word >> 16u32) & 0xff) <= 63,
{
}

/// Announcing a burst leaves the burst control register with no dummy
/// bursts and with the low twelve bits of the transmit count, every other
/// bit as it was, and starts the exchange in the transfer control register.
pub proof fn lemma_announce_sets_counters(
    base: usize,
    total: u32,
    transmit: u32,
    burst: BurstControl,
    transfer: TransferControl,
)
    ensures
        ({
            let after = spec_announce(base, total, transmit)[2].stored(burst@);
            &&& after == (((burst@ & !DBC) | ((0u32 & 0xf) << 24u32)) & !STC) | (transmit & 0xfff)
            &&& (after >> 24u32) & 0xf == 0
            &&& after & STC == transmit & 0xfff
            &&& after & !0x0f00_0fffu32 == burst@ & !0x0f00_0fffu32
        }),
        spec_announce(base, total, transmit)[3].stored(transfer@) == transfer@ | XCH,
{
    lemma_burst_fields(burst@, transmit);
    lemma_burst_fields(transfer@, transmit);
}

/// The wait before a byte is sent ends exactly when at most 63 bytes are in
/// the transmit FIFO; the wait before a byte is taken ends exactly when the
/// receive FIFO is not empty.
pub proof fn lemma_waits_match_counters(status: FifoStatus)
    ensures
        (status@ & TRANSMIT_FIFO_FULL == 0) <==> ((status@ >> 16u32) & 0xff) <= 63,
        (status@ & RECEIVE_FIFO_COUNT != 0) <==> (status@ & 0xff) != 0,
{
    lemma_burst_fields(status@, 0);
}

} // verus!
