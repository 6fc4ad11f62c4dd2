//! Console of a board: a 16550 UART found in the device tree.

use vstd::prelude::*;
use crate::fdt::AddressRange;

verus! {

/// The console UART of a board, if it has one, and the physical memory that
/// buffers handed to the console may lie in.
#[derive(Clone, Copy, Debug, PartialEq, Eq, Structural)]
pub struct SerialHandle {
    /// Base address of the UART.
    pub uart16550: Option<usize>,
    /// Memory that a buffer to be written must lie in.
    pub range: AddressRange,
}

/// What is to be done with a request to the console.
#[derive(Clone, Copy, Debug, PartialEq, Eq, Structural)]
pub enum ConsoleRequest {
    /// Hand the bytes to the UART at this address; the request succeeds
    /// with the number of bytes the UART took.
    Proceed { uart16550: usize },
    /// The request fails: the buffer does not lie in the memory it must lie
    /// in.
    InvalidParam,
    /// The request fails: the board has no console.
    Failed,
}

impl SerialHandle {
    /// Whether a buffer of `num_bytes` bytes at `start` lies in the memory
    /// that buffers must lie in: its first byte does, and so does the byte
    /// before its end.
    pub open spec fn admits(self, start: usize, num_bytes: usize) -> bool {
        self.range.spec_contains(start as int) && self.range.spec_contains(
            start + num_bytes - 1,
        )
    }

    /// What is to be done with a request to write a buffer.
    pub open spec fn spec_write(self, start: usize, num_bytes: usize) -> ConsoleRequest {
        match self.uart16550 {
            Some(uart16550) => if self.admits(start, num_bytes) {
                ConsoleRequest::Proceed { uart16550 }
            } else {
                ConsoleRequest::InvalidParam
            },
            None => ConsoleRequest::Failed,
        }
    }

    /// Decides on a request to write the buffer of `num_bytes` bytes at the
    /// physical address `start`.
    pub fn write(&self, start: usize, num_bytes: usize) -> (request: ConsoleRequest)
        ensures
            request == self.spec_write(start, num_bytes),
    {
        match self.uart16550 {
            Some(uart16550) => {
                if !self.range.contains(start) {
                    return ConsoleRequest::InvalidParam;
                }
                let last: usize = if num_bytes == 0 {
                    if start == 0 {
                        return ConsoleRequest::InvalidParam;
                    }
                    start - 1
                } else {
                    match start.checked_add(num_bytes - 1) {
                        Some(last) => last,
                        None => {
                            return ConsoleRequest::InvalidParam;
                        },
                    }
                };
                if self.range.contains(last) {
                    ConsoleRequest::Proceed { uart16550 }
                } else {
                    ConsoleRequest::InvalidParam
                }
            },
            None => ConsoleRequest::Failed,
        }
    }

    /// Decides on a request to write one byte.
    pub fn write_byte(&self) -> (request: ConsoleRequest)
        ensures
            request == match self.uart16550 {
                Some(uart16550) => ConsoleRequest::Proceed { uart16550 },
                None => ConsoleRequest::Failed,
            },
    {
        match self.uart16550 {
            Some(uart16550) => ConsoleRequest::Proceed { uart16550 },
            None => ConsoleRequest::Failed,
        }
    }
}

} // verus!
