//! A board with nothing but a console.

use vstd::prelude::*;
use crate::fdt::{AddressRange, MEMORY_END, MEMORY_START};
use crate::fdt::uart16550::SerialHandle;

verus! {

/// A board with nothing but a console.
#[derive(Clone, Copy, Debug, PartialEq, Eq, Structural)]
pub struct Board {
    pub serial: SerialHandle,
}

impl Board {
    /// Creates a board without a console.
    pub fn new() -> (board: Self)
        ensures
            board.serial.uart16550 is None,
            board.serial.range == (AddressRange { start: MEMORY_START, end: MEMORY_END }),
    {
        Self {
            serial: SerialHandle {
                uart16550: None,
                range: AddressRange { start: MEMORY_START, end: MEMORY_END },
            },
        }
    }

    /// Puts the console at the start of `range`.
    pub fn set_uart16550_serial(&mut self, range: AddressRange)
        ensures
            final(self).serial.uart16550 == Some(range.start),
            final(self).serial.range == (AddressRange { start: MEMORY_START, end: MEMORY_END }),
    {
        self.serial = SerialHandle {
            uart16550: Some(range.start),
            range: AddressRange { start: MEMORY_START, end: MEMORY_END },
        };
    }

    /// The address of the console, if the board has one.
    pub fn uart16550_serial(&self) -> (uart16550: Option<usize>)
        ensures
            uart16550 == self.serial.uart16550,
    {
        self.serial.uart16550
    }
}

} // verus!
