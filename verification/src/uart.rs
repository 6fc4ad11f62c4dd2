//! Universal Asynchronous Receiver-Transmitter.
//!
//! The first registers of the peripheral are those of a 16550; what is to
//! be done to them is named, not spelled out as accesses. The status
//! register behind them is this chip's own.

use vstd::prelude::*;
use crate::base_address::{BaseAddress, Dynamic, Static};
use crate::ccu::{ClockGate, Clocks, CCU};
use crate::mmio::{Access, Register};
use crate::time::Bps;

verus! {

/// Universal Asynchronous Receiver-Transmitter.
pub struct UART<A: BaseAddress> {
    base: A,
}

impl<A: BaseAddress> UART<A> {
    /// The address the peripheral lies at.
    pub closed spec fn base(&self) -> usize {
        self.base.addr()
    }

    /// The registers of this peripheral.
    pub fn registers(&self) -> (block: RegisterBlock)
        ensures
            block.is_at(self.base()),
    {
        RegisterBlock::at(self.base.ptr())
    }
}

impl<const B: usize> UART<Static<B>> {
    /// Takes the peripheral at the address `B`. Whoever calls this answers
    /// for there being no second handle to the same peripheral.
    #[inline]
    pub fn steal_static() -> (uart: UART<Static<B>>)
        ensures
            uart.base() == B,
    {
        UART { base: Static::<B> }
    }
}

impl UART<Dynamic> {
    /// Takes the peripheral at `base`. Whoever calls this answers for there
    /// being no second handle to the same peripheral.
    #[inline]
    pub fn steal_dynamic(base: usize) -> (uart: UART<Dynamic>)
        ensures
            uart.base() == base,
    {
        UART { base: Dynamic::new(base) }
    }
}

/// The registers of the peripheral.
#[derive(Clone, Copy, Debug)]
pub struct RegisterBlock {
    /// 0x00 - the registers of the 16550, seven words.
    pub uart16550: Register,
    /// 0x7c - UART status register.
    pub usr: USR,
}

impl RegisterBlock {
    /// Whether this is the register block of the peripheral at `base`:
    /// every register lies at its hardware offset.
    pub open spec fn is_at(self, base: usize) -> bool {
        &&& self.uart16550 == (Register { base, offset: 0x00 })
        &&& self.usr.reg == (Register { base, offset: 0x7c })
    }

    /// The register block of the peripheral at `base`.
    pub fn at(base: usize) -> (block: Self)
        ensures
            block.is_at(base),
    {
        RegisterBlock {
            uart16550: Register { base, offset: 0x00 },
            usr: USR { reg: Register { base, offset: 0x7c } },
        }
    }
}

/// Serial configuration structure.
#[derive(Clone, Copy, Debug, PartialEq, Eq, Structural)]
pub struct Config {
    /// Serial baudrate in `Bps`.
    pub baudrate: Bps,
    /// Word length, can be 5, 6, 7 or 8.
    pub wordlength: WordLength,
    /// Parity checks, can be `NoParity`, `Odd` or `Even`.
    pub parity: Parity,
    /// Number of stop bits, can be `One` or `Two`.
    pub stopbits: StopBits,
}

/// Serial word length settings.
#[derive(Clone, Copy, Debug, PartialEq, Eq, Structural)]
pub enum WordLength {
    Five,
    Six,
    Seven,
    Eight,
}

/// Serial parity bit settings.
#[derive(Clone, Copy, Debug, PartialEq, Eq, Structural)]
pub enum Parity {
    /// No parity checks.
    NoParity,
    /// Odd parity.
    Odd,
    /// Even parity.
    Even,
}

/// Stop bit settings.
#[derive(Clone, Copy, Debug, PartialEq, Eq, Structural)]
pub enum StopBits {
    /// 1 stop bit
    One,
    /// 2 stop bits, or 1.5 bits when WordLength is Five
    Two,
}

/// One thing to do to the peripheral.
#[derive(Clone, Copy, Debug, PartialEq, Eq, Structural)]
pub enum Step {
    /// An access to a register of this chip.
    Bus(Access),
    /// Switch off the four interrupt sources of the 16550: modem status,
    /// received data, receiver line status, transmitter holding empty.
    DisableInterrupts,
    /// Store the divisor in the divisor latch of the 16550.
    WriteDivisor(u16),
    /// Set the frame of the 16550 and leave the rest of its line control as
    /// it is.
    LineControl { wordlength: WordLength, one_stop_bit: bool, parity: Parity },
    /// Hand a byte to the transmitter of the 16550.
    Transmit(u8),
}

/// The value of the divisor latch for a bus clock of `apb1` hertz and
/// `bps` bits per second: the clock divided by sixteen times the baud rate,
/// rounded to the nearest whole number, as far as it fits the latch.
pub open spec fn spec_divisor(apb1: u32, bps: u32) -> int {
    ((apb1 + 8 * bps) / (16 * bps)) % 0x1_0000
}

/// Computes the value of the divisor latch.
pub fn divisor(apb1: u32, bps: u32) -> (latch: u16)
    requires
        bps > 0,
    ensures
        latch == spec_divisor(apb1, bps),
{
    let rounded: u64 = (apb1 as u64 + 8 * (bps as u64)) / (16 * (bps as u64));
    (rounded % 0x1_0000) as u16
}

/// Transmit FIFO not full flag of the UART status register.
pub const TFNF: u32 = 0x02;

/// Transmit FIFO empty flag of the UART status register.
pub const TFE: u32 = 0x04;

/// The steps that bring the peripheral at `uart` up with `config`, with
/// its clock gate in the unit at `ccu`.
pub open spec fn spec_setup<const I: usize, PINS: Pins<I>>(
    ccu: usize,
    apb1: u32,
    config: Config,
) -> Seq<Step> {
    seq![
        Step::Bus(
            Access::Modify {
                reg: <PINS::ClockGate as ClockGate>::gating_register(ccu),
                clear: <PINS::ClockGate as ClockGate>::gating_bits(),
                set: 0,
            },
        ),
        Step::Bus(
            Access::Modify {
                reg: <PINS::ClockGate as ClockGate>::gating_register(ccu),
                clear: 0,
                set: <PINS::ClockGate as ClockGate>::gating_bits(),
            },
        ),
        Step::DisableInterrupts,
        Step::WriteDivisor(spec_divisor(apb1, config.baudrate.0) as u16),
        Step::LineControl {
            wordlength: config.wordlength,
            one_stop_bit: config.stopbits == StopBits::One,
            parity: config.parity,
        },
    ]
}

/// The steps that send `bytes`: for each byte, wait until the transmit FIFO
/// is not full, then hand the byte to the transmitter.
pub open spec fn spec_send(base: usize, bytes: Seq<u8>) -> Seq<Step> {
    Seq::new(
        2 * bytes.len(),
        |k: int|
            if k % 2 == 0 {
                Step::Bus(Access::WaitSet { reg: Register { base, offset: 0x7c }, mask: TFNF })
            } else {
                Step::Transmit(bytes[k / 2])
            },
    )
}

/// Managed serial structure with peripheral and pins.
pub struct Serial<A: BaseAddress, const I: usize, PINS: Pins<I>> {
    uart: UART<A>,
    pins: PINS,
}

impl<A: BaseAddress, const I: usize, PINS: Pins<I>> Serial<A, I, PINS> {
    /// The address the peripheral lies at.
    pub closed spec fn base(&self) -> usize {
        self.uart.base()
    }

    /// The pins of this instance.
    pub closed spec fn pins(self) -> PINS {
        self.pins
    }

    /// The registers of the peripheral.
    pub fn registers(&self) -> (block: RegisterBlock)
        ensures
            block.is_at(self.base()),
    {
        self.uart.registers()
    }

    /// Create a serial instance.
    ///
    /// Returns the instance and the steps that bring the peripheral up:
    /// reset it through its clock gate, switch off its interrupts, set the
    /// baud rate, and set the frame.
    #[inline]
    pub fn new<A1: BaseAddress>(
        uart: UART<A>,
        pins: PINS,
        config: Config,
        clocks: &Clocks,
        ccu: &CCU<A1>,
    ) -> (made: (Self, [Step; 5]))
        requires
            <PINS::ClockGate as ClockGate>::indexed(),
            config.baudrate.0 > 0,
        ensures
            made.0.base() == uart.base(),
            made.0.pins() == pins,
            made.1@ == spec_setup::<I, PINS>(ccu.base(), clocks.apb1.0, config),
    {
        let reset = PINS::ClockGate::reset(ccu);
        let latch = divisor(clocks.apb1.0, config.baudrate.0);
        let one_stop_bit = match config.stopbits {
            StopBits::One => true,
            StopBits::Two => false,
        };
        let script = [
            Step::Bus(reset[0]),
            Step::Bus(reset[1]),
            Step::DisableInterrupts,
            Step::WriteDivisor(latch),
            Step::LineControl {
                wordlength: config.wordlength,
                one_stop_bit,
                parity: config.parity,
            },
        ];
        (Serial { uart, pins }, script)
    }

    /// Close uart and release peripheral. Returns the peripheral, the pins
    /// and the access that closes the clock gate.
    #[inline]
    pub fn free<A1: BaseAddress>(self, ccu: &CCU<A1>) -> (parts: (UART<A>, PINS, Access))
        requires
            <PINS::ClockGate as ClockGate>::indexed(),
        ensures
            parts.0.base() == self.base(),
            parts.1 == self.pins(),
            parts.2 == (Access::Modify {
                reg: <PINS::ClockGate as ClockGate>::gating_register(ccu.base()),
                clear: <PINS::ClockGate as ClockGate>::gating_bits(),
                set: 0,
            }),
    {
        let access = PINS::ClockGate::free(ccu);
        (self.uart, self.pins, access)
    }

    /// The steps that send `buffer`, waiting before each byte until the
    /// transmit FIFO is not full.
    pub fn write(&self, buffer: &[u8]) -> (script: Vec<Step>)
        ensures
            script@ == spec_send(self.base(), buffer@),
    {
        let usr = self.uart.registers().usr;
        let ghost base = self.base();
        let mut script: Vec<Step> = Vec::new();
        let mut i: usize = 0;
        while i < buffer.len()
            invariant
                i <= buffer.len(),
                usr.reg == (Register { base, offset: 0x7c }),
                script@ == spec_send(base, buffer@.subrange(0, i as int)),
            decreases buffer.len() - i,
        {
            script.push(Step::Bus(Access::WaitSet { reg: usr.reg, mask: TFNF }));
            script.push(Step::Transmit(buffer[i]));
            i += 1;
        }
        script
    }

    /// The step that waits until the transmit FIFO is empty.
    pub fn flush(&self) -> (step: Step)
        ensures
            step == Step::Bus(
                Access::WaitSet { reg: Register { base: self.base(), offset: 0x7c }, mask: TFE },
            ),
    {
        Step::Bus(Access::WaitSet { reg: self.uart.registers().usr.reg, mask: TFE })
    }

    /// Sends `word` without waiting: the step that hands it to the
    /// transmitter, or `None` while the transmit FIFO is full.
    pub fn try_write(&self, status: UartStatus, word: u8) -> (step: Option<Step>)
        ensures
            step == if status@ & 0x02 != 0 {
                Some(Step::Transmit(word))
            } else {
                None
            },
    {
        if status.transmit_fifo_not_full() {
            Some(Step::Transmit(word))
        } else {
            None
        }
    }

    /// Tests without waiting whether everything has been sent: false while
    /// the transmit FIFO is not empty.
    pub fn try_flush(&self, status: UartStatus) -> (done: bool)
        ensures
            done == (status@ & 0x04 != 0),
    {
        status.transmit_fifo_empty()
    }
}

/// Valid serial pins.
pub trait Pins<const I: usize> {
    /// The clock gate of the peripheral that the pins belong to.
    type ClockGate: ClockGate;
}

/// Valid transmit pin for UART peripheral.
pub trait Transmit<const I: usize> {
}

/// Valid receive pin for UART peripheral.
pub trait Receive<const I: usize> {
}

impl<const I: usize, T, R> Pins<I> for (T, R) where T: Transmit<I>, R: Receive<I> {
    type ClockGate = crate::ccu::UART<I>;
}

/// UART Status Register.
#[derive(Clone, Copy, Debug, PartialEq, Eq, Structural)]
pub struct USR {
    pub reg: Register,
}

impl USR {
    /// The status that a word read from the register holds: its low byte.
    pub fn read(&self, word: u32) -> (status: UartStatus)
        ensures
            status@ == word % 0x100,
    {
        UartStatus((word % 0x100) as u8)
    }
}

/// Status settings for current peripheral.
#[derive(Clone, Copy, Debug, PartialEq, Eq)]
pub struct UartStatus(u8);

impl View for UartStatus {
    type V = u8;

    closed spec fn view(&self) -> u8 {
        self.0
    }
}

impl UartStatus {
    /// Takes the low byte of a word read from the register.
    #[inline]
    pub fn from_bits(bits: u8) -> (status: Self)
        ensures
            status@ == bits,
    {
        Self(bits)
    }

    /// Returns if the receive FIFO is full.
    #[inline]
    pub fn receive_fifo_full(self) -> (r: bool)
        ensures
            r == (self@ & 0x10 != 0),
    {
        self.0 & 0x10 != 0
    }

    /// Returns if the receive FIFO is non-empty.
    #[inline]
    pub fn receive_fifo_not_empty(self) -> (r: bool)
        ensures
            r == (self@ & 0x08 != 0),
    {
        self.0 & 0x08 != 0
    }

    /// Returns if the transmit FIFO is empty.
    #[inline]
    pub fn transmit_fifo_empty(self) -> (r: bool)
        ensures
            r == (self@ & 0x04 != 0),
    {
        self.0 & 0x04 != 0
    }

    /// Returns if the transmit FIFO is not full.
    #[inline]
    pub fn transmit_fifo_not_full(self) -> (r: bool)
        ensures
            r == (self@ & 0x02 != 0),
    {
        self.0 & 0x02 != 0
    }

    /// Returns if the peripheral is busy.
    #[inline]
    pub fn busy(self) -> (r: bool)
        ensures
            r == (self@ & 0x01 != 0),
    {
        self.0 & 0x01 != 0
    }
}

} // verus!
