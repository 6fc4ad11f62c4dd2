//! Machine-mode firmware support for RISC-V boards: the registers of the
//! peripherals of an Allwinner D1, the boot lock that lets one hart of many
//! bring the machine up, and the board description read from a device tree.
//!
//! Nothing in this crate touches memory-mapped hardware itself. Drivers
//! describe what has to happen on the peripheral bus as [`mmio::Access`]
//! values, and decode what was read from it; whoever owns the bus carries
//! the accesses out. In the same way the boot of a hart is a state machine
//! whose steps somebody else performs on the atomics and locks of the
//! machine.

pub mod bits;
pub mod mmio;
pub mod base_address;
pub mod claims;
pub mod time;
pub mod ccu;
pub mod com;
pub mod gpio;
pub mod phy;
pub mod spi;
pub mod uart;
pub mod wafer;
pub mod fdt;
pub mod dynamic;
pub mod boot;
pub mod board;
pub mod console;
pub mod reset;
pub mod opaque;
pub mod supervisor;
pub mod flashes;
