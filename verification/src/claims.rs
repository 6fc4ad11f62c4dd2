//! Who holds which peripheral.
//!
//! A handle to a peripheral gives the accesses that change it, so there
//! should be one handle to each. Taking handles through a register of
//! claims makes that a fact: a peripheral at an address is handed out once.

use vstd::prelude::*;
use crate::base_address::Dynamic;
use crate::ccu::CCU;
use crate::com::COM;
use crate::gpio::GPIO;
use crate::phy::PHY;
use crate::spi::SPI;
use crate::uart::UART;

verus! {

/// The kinds of peripheral that can be claimed.
#[derive(Clone, Copy, Debug, PartialEq, Eq, Structural)]
pub enum Peripheral {
    Ccu,
    Com,
    Gpio,
    Phy,
    Spi,
    Uart,
}

/// The peripherals that have been handed out.
pub struct Claims {
    taken: Vec<(Peripheral, usize)>,
}

impl View for Claims {
    type V = Set<(Peripheral, usize)>;

    /// The peripherals that have been handed out, each with its address.
    closed spec fn view(&self) -> Set<(Peripheral, usize)> {
        self.taken@.to_set()
    }
}

impl Claims {
    /// Creates a register in which nothing is claimed.
    pub fn new() -> (claims: Self)
        ensures
            claims@ == Set::<(Peripheral, usize)>::empty(),
    {
        let claims = Claims { taken: Vec::new() };
        claims
    }

    /// Tests whether the peripheral of this kind at `base` has been handed
    /// out.
    pub fn is_claimed(&self, kind: Peripheral, base: usize) -> (claimed: bool)
        ensures
            claimed == self@.contains((kind, base)),
    {
        let mut i: usize = 0;
        while i < self.taken.len()
            invariant
                i <= self.taken.len(),
                forall|k: int| 0 <= k < i ==> self.taken@[k] != (kind, base),
            decreases self.taken.len() - i,
        {
            let (taken_kind, taken_base) = self.taken[i];
            if taken_kind == kind && taken_base == base {
                return true;
            }
            i += 1;
        }
        false
    }

    /// Claims the peripheral of this kind at `base`. Succeeds exactly when
    /// it has not been claimed before, and then it is claimed.
    pub fn claim(&mut self, kind: Peripheral, base: usize) -> (granted: bool)
        ensures
            granted == !old(self)@.contains((kind, base)),
            final(self)@ == old(self)@.insert((kind, base)),
    {
        if self.is_claimed(kind, base) {
            false
        } else {
            self.taken.push((kind, base));
            proof {
                let before = old(self).taken@;
                let after = self.taken@;
                assert forall|entry: (Peripheral, usize)|
                    after.to_set().contains(entry) <==> before.to_set().insert(
                        (kind, base),
                    ).contains(entry) by {
                    if before.contains(entry) {
                        let k = choose|k: int| 0 <= k < before.len() && before[k] == entry;
                        assert(after[k] == entry);
                    }
                    if entry == (kind, base) {
                        assert(after[before.len() as int] == entry);
                    }
                }
            }
            true
        }
    }

    /// Hands out the clock control unit at `base`, once.
    pub fn claim_ccu(&mut self, base: usize) -> (handle: Option<CCU<Dynamic>>)
        ensures
            handle is Some <==> !old(self)@.contains((Peripheral::Ccu, base)),
            handle matches Some(ccu) ==> ccu.base() == base,
            final(self)@ == old(self)@.insert((Peripheral::Ccu, base)),
    {
        if self.claim(Peripheral::Ccu, base) {
            Some(CCU::steal_dynamic(base))
        } else {
            None
        }
    }

    /// Hands out the common control peripheral at `base`, once.
    pub fn claim_com(&mut self, base: usize) -> (handle: Option<COM<Dynamic>>)
        ensures
            handle is Some <==> !old(self)@.contains((Peripheral::Com, base)),
            handle matches Some(com) ==> com.base() == base,
            final(self)@ == old(self)@.insert((Peripheral::Com, base)),
    {
        if self.claim(Peripheral::Com, base) {
            Some(COM::steal_dynamic(base))
        } else {
            None
        }
    }

    /// Hands out the GPIO controller at `base`, once.
    pub fn claim_gpio(&mut self, base: usize) -> (handle: Option<GPIO<Dynamic>>)
        ensures
            handle is Some <==> !old(self)@.contains((Peripheral::Gpio, base)),
            handle matches Some(gpio) ==> gpio.base() == base,
            final(self)@ == old(self)@.insert((Peripheral::Gpio, base)),
    {
        if self.claim(Peripheral::Gpio, base) {
            Some(GPIO::steal_dynamic(base))
        } else {
            None
        }
    }

    /// Hands out the physical layer peripheral at `base`, once.
    pub fn claim_phy(&mut self, base: usize) -> (handle: Option<PHY<Dynamic>>)
        ensures
            handle is Some <==> !old(self)@.contains((Peripheral::Phy, base)),
            handle matches Some(phy) ==> phy.base() == base,
            final(self)@ == old(self)@.insert((Peripheral::Phy, base)),
    {
        if self.claim(Peripheral::Phy, base) {
            Some(PHY::steal_dynamic(base))
        } else {
            None
        }
    }

    /// Hands out the SPI controller at `base`, once.
    pub fn claim_spi(&mut self, base: usize) -> (handle: Option<SPI<Dynamic>>)
        ensures
            handle is Some <==> !old(self)@.contains((Peripheral::Spi, base)),
            handle matches Some(spi) ==> spi.base() == base,
            final(self)@ == old(self)@.insert((Peripheral::Spi, base)),
    {
        if self.claim(Peripheral::Spi, base) {
            Some(SPI::steal_dynamic(base))
        } else {
            None
        }
    }

    /// Hands out the UART at `base`, once.
    pub fn claim_uart(&mut self, base: usize) -> (handle: Option<UART<Dynamic>>)
        ensures
            handle is Some <==> !old(self)@.contains((Peripheral::Uart, base)),
            handle matches Some(uart) ==> uart.base() == base,
            final(self)@ == old(self)@.insert((Peripheral::Uart, base)),
    {
        if self.claim(Peripheral::Uart, base) {
            Some(UART::steal_dynamic(base))
        } else {
            None
        }
    }
}

} // verus!
