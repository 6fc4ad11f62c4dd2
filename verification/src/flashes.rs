//! Flash memories on the SPI bus.

use vstd::prelude::*;

verus! {

/// Command that asks a flash for its identifier.
pub const CMD_READ_ID: u8 = 0x9f;

/// Nand flash on SPI.
pub struct SpiNand<SPI> {
    spi: SPI,
}

/// Nand flash identifier.
#[derive(Clone, Copy, Debug, PartialEq, Eq, Structural)]
pub struct Id {
    /// Device manufacturer byte
    pub manufacturer: u8,
    /// Device identifier byte
    pub device: u8,
}

impl<SPI> SpiNand<SPI> {
    /// The bus the flash is on.
    pub closed spec fn bus(self) -> SPI {
        self.spi
    }

    /// Wraps the bus the flash is on.
    pub fn new(spi: SPI) -> (flash: Self)
        ensures
            flash.bus() == spi,
    {
        SpiNand { spi }
    }

    /// The bus the flash is on, to run a transfer on.
    pub fn bus_mut(&mut self) -> (spi: &mut SPI)
        ensures
            *spi == old(self).bus(),
            final(self).bus() == *final(spi),
    {
        &mut self.spi
    }

    /// The bytes to send to ask for the identifier. Three bytes are to be
    /// received in the same transfer.
    pub fn read_id_command(&self) -> (command: [u8; 1])
        ensures
            command[0] == CMD_READ_ID,
    {
        [CMD_READ_ID]
    }

    /// Identify the NAND flash device from the three bytes received in
    /// answer to the command: the first is a dummy, the second names the
    /// manufacturer, the third the device.
    #[inline]
    pub fn read_id(&mut self, answer: [u8; 3]) -> (id: Id)
        ensures
            id == (Id { manufacturer: answer[1], device: answer[2] }),
            final(self).bus() == old(self).bus(),
    {
        let (manufacturer, device) = (answer[1], answer[2]);
        Id { manufacturer, device }
    }
}

} // verus!
