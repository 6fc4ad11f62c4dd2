//! The one console of the machine.

use vstd::prelude::*;

verus! {

/// Address of the UART that the console uses until the device tree names
/// another.
pub const EARLY_UART16550: usize = 0x1000_0000;

/// The console of the machine.
#[derive(Clone, Copy, Debug, PartialEq, Eq, Structural)]
pub enum MachineConsole {
    /// A 16550 UART at this address.
    Uart16550(usize),
}

impl MachineConsole {
    /// The console before the device tree has been read.
    pub fn new() -> (console: Self)
        ensures
            console == MachineConsole::Uart16550(EARLY_UART16550),
    {
        MachineConsole::Uart16550(EARLY_UART16550)
    }

    /// The UART to hand a character to. The character is handed over again
    /// and again until the UART takes it.
    #[inline]
    pub fn put_char(&self) -> (uart16550: usize)
        ensures
            *self == MachineConsole::Uart16550(uart16550),
    {
        match self {
            MachineConsole::Uart16550(uart16550) => *uart16550,
        }
    }

    /// Goes on with a string of which `remaining` bytes are still to be
    /// written, after the UART took `count` of them: returns the number of
    /// bytes to hand over next, starting behind those it took. The string is
    /// written when this is zero.
    #[inline]
    pub fn put_str(&self, remaining: usize, count: usize) -> (rest: usize)
        requires
            count <= remaining,
        ensures
            rest == remaining - count,
    {
        remaining - count
    }
}

/// Makes the UART at `uart16550` the console of the machine.
pub fn load_console_uart16550(console: &mut MachineConsole, uart16550: usize)
    ensures
        *final(console) == MachineConsole::Uart16550(uart16550),
{
    *console = MachineConsole::Uart16550(uart16550);
}

} // verus!
