//! SoC configuration on D1-like chips: the pins of the chip, and which pin
//! in which function serves which signal of which peripheral.

use vstd::prelude::*;
use crate::base_address::BaseAddress;
use crate::gpio::{Disabled, Function, Pin};
use crate::spi::{Clk, Miso, Mosi};
use crate::uart::{Receive, Transmit};

verus! {

/// GPIO pins in current platform.
pub struct Pins<A: BaseAddress> {
    pub pb0: Pin<A, b'B', 0, Disabled>,
    pub pb1: Pin<A, b'B', 1, Disabled>,
    pub pb2: Pin<A, b'B', 2, Disabled>,
    pub pb3: Pin<A, b'B', 3, Disabled>,
    pub pb4: Pin<A, b'B', 4, Disabled>,
    pub pb5: Pin<A, b'B', 5, Disabled>,
    pub pb6: Pin<A, b'B', 6, Disabled>,
    pub pb7: Pin<A, b'B', 7, Disabled>,
    pub pb8: Pin<A, b'B', 8, Disabled>,
    pub pb9: Pin<A, b'B', 9, Disabled>,
    pub pb10: Pin<A, b'B', 10, Disabled>,
    pub pb11: Pin<A, b'B', 11, Disabled>,
    pub pb12: Pin<A, b'B', 12, Disabled>,
    pub pc0: Pin<A, b'C', 0, Disabled>,
    pub pc1: Pin<A, b'C', 1, Disabled>,
    pub pc2: Pin<A, b'C', 2, Disabled>,
    pub pc3: Pin<A, b'C', 3, Disabled>,
    pub pc4: Pin<A, b'C', 4, Disabled>,
    pub pc5: Pin<A, b'C', 5, Disabled>,
    pub pc6: Pin<A, b'C', 6, Disabled>,
    pub pc7: Pin<A, b'C', 7, Disabled>,
    pub pd0: Pin<A, b'D', 0, Disabled>,
    pub pd1: Pin<A, b'D', 1, Disabled>,
    pub pd2: Pin<A, b'D', 2, Disabled>,
    pub pd3: Pin<A, b'D', 3, Disabled>,
    pub pd4: Pin<A, b'D', 4, Disabled>,
    pub pd5: Pin<A, b'D', 5, Disabled>,
    pub pd6: Pin<A, b'D', 6, Disabled>,
    pub pd7: Pin<A, b'D', 7, Disabled>,
    pub pd8: Pin<A, b'D', 8, Disabled>,
    pub pd9: Pin<A, b'D', 9, Disabled>,
    pub pd10: Pin<A, b'D', 10, Disabled>,
    pub pd11: Pin<A, b'D', 11, Disabled>,
    pub pd12: Pin<A, b'D', 12, Disabled>,
    pub pd13: Pin<A, b'D', 13, Disabled>,
    pub pd14: Pin<A, b'D', 14, Disabled>,
    pub pd15: Pin<A, b'D', 15, Disabled>,
    pub pd16: Pin<A, b'D', 16, Disabled>,
    pub pd17: Pin<A, b'D', 17, Disabled>,
    pub pd18: Pin<A, b'D', 18, Disabled>,
    pub pd19: Pin<A, b'D', 19, Disabled>,
    pub pd20: Pin<A, b'D', 20, Disabled>,
    pub pd21: Pin<A, b'D', 21, Disabled>,
    pub pd22: Pin<A, b'D', 22, Disabled>,
    pub pe0: Pin<A, b'E', 0, Disabled>,
    pub pe1: Pin<A, b'E', 1, Disabled>,
    pub pe2: Pin<A, b'E', 2, Disabled>,
    pub pe3: Pin<A, b'E', 3, Disabled>,
    pub pe4: Pin<A, b'E', 4, Disabled>,
    pub pe5: Pin<A, b'E', 5, Disabled>,
    pub pe6: Pin<A, b'E', 6, Disabled>,
    pub pe7: Pin<A, b'E', 7, Disabled>,
    pub pe8: Pin<A, b'E', 8, Disabled>,
    pub pe9: Pin<A, b'E', 9, Disabled>,
    pub pe10: Pin<A, b'E', 10, Disabled>,
    pub pe11: Pin<A, b'E', 11, Disabled>,
    pub pe12: Pin<A, b'E', 12, Disabled>,
    pub pe13: Pin<A, b'E', 13, Disabled>,
    pub pe14: Pin<A, b'E', 14, Disabled>,
    pub pe15: Pin<A, b'E', 15, Disabled>,
    pub pe16: Pin<A, b'E', 16, Disabled>,
    pub pe17: Pin<A, b'E', 17, Disabled>,
    pub pf0: Pin<A, b'F', 0, Disabled>,
    pub pf1: Pin<A, b'F', 1, Disabled>,
    pub pf2: Pin<A, b'F', 2, Disabled>,
    pub pf3: Pin<A, b'F', 3, Disabled>,
    pub pf4: Pin<A, b'F', 4, Disabled>,
    pub pf5: Pin<A, b'F', 5, Disabled>,
    pub pf6: Pin<A, b'F', 6, Disabled>,
    pub pg0: Pin<A, b'G', 0, Disabled>,
    pub pg1: Pin<A, b'G', 1, Disabled>,
    pub pg2: Pin<A, b'G', 2, Disabled>,
    pub pg3: Pin<A, b'G', 3, Disabled>,
    pub pg4: Pin<A, b'G', 4, Disabled>,
    pub pg5: Pin<A, b'G', 5, Disabled>,
    pub pg6: Pin<A, b'G', 6, Disabled>,
    pub pg7: Pin<A, b'G', 7, Disabled>,
    pub pg8: Pin<A, b'G', 8, Disabled>,
    pub pg9: Pin<A, b'G', 9, Disabled>,
    pub pg10: Pin<A, b'G', 10, Disabled>,
    pub pg11: Pin<A, b'G', 11, Disabled>,
    pub pg12: Pin<A, b'G', 12, Disabled>,
    pub pg13: Pin<A, b'G', 13, Disabled>,
    pub pg14: Pin<A, b'G', 14, Disabled>,
    pub pg15: Pin<A, b'G', 15, Disabled>,
    pub pg16: Pin<A, b'G', 16, Disabled>,
    pub pg17: Pin<A, b'G', 17, Disabled>,
    pub pg18: Pin<A, b'G', 18, Disabled>,
}

impl<A: BaseAddress + Copy> Pins<A> {
    /// Takes every pin of the peripheral at `base`, disabled. Whoever calls
    /// this answers for the pins being disabled and for there being no
    /// second handle to any of them.
    pub fn steal(base: A) -> (pins: Self)
        ensures
            pins.pb0.base() == base.addr(),
            pins.pb1.base() == base.addr(),
            pins.pb2.base() == base.addr(),
            pins.pb3.base() == base.addr(),
            pins.pb4.base() == base.addr(),
            pins.pb5.base() == base.addr(),
            pins.pb6.base() == base.addr(),
            pins.pb7.base() == base.addr(),
            pins.pb8.base() == base.addr(),
            pins.pb9.base() == base.addr(),
            pins.pb10.base() == base.addr(),
            pins.pb11.base() == base.addr(),
            pins.pb12.base() == base.addr(),
            pins.pc0.base() == base.addr(),
            pins.pc1.base() == base.addr(),
            pins.pc2.base() == base.addr(),
            pins.pc3.base() == base.addr(),
            pins.pc4.base() == base.addr(),
            pins.pc5.base() == base.addr(),
            pins.pc6.base() == base.addr(),
            pins.pc7.base() == base.addr(),
            pins.pd0.base() == base.addr(),
            pins.pd1.base() == base.addr(),
            pins.pd2.base() == base.addr(),
            pins.pd3.base() == base.addr(),
            pins.pd4.base() == base.addr(),
            pins.pd5.base() == base.addr(),
            pins.pd6.base() == base.addr(),
            pins.pd7.base() == base.addr(),
            pins.pd8.base() == base.addr(),
            pins.pd9.base() == base.addr(),
            pins.pd10.base() == base.addr(),
            pins.pd11.base() == base.addr(),
            pins.pd12.base() == base.addr(),
            pins.pd13.base() == base.addr(),
            pins.pd14.base() == base.addr(),
            pins.pd15.base() == base.addr(),
            pins.pd16.base() == base.addr(),
            pins.pd17.base() == base.addr(),
            pins.pd18.base() == base.addr(),
            pins.pd19.base() == base.addr(),
            pins.pd20.base() == base.addr(),
            pins.pd21.base() == base.addr(),
            pins.pd22.base() == base.addr(),
            pins.pe0.base() == base.addr(),
            pins.pe1.base() == base.addr(),
            pins.pe2.base() == base.addr(),
            pins.pe3.base() == base.addr(),
            pins.pe4.base() == base.addr(),
            pins.pe5.base() == base.addr(),
            pins.pe6.base() == base.addr(),
            pins.pe7.base() == base.addr(),
            pins.pe8.base() == base.addr(),
            pins.pe9.base() == base.addr(),
            pins.pe10.base() == base.addr(),
            pins.pe11.base() == base.addr(),
            pins.pe12.base() == base.addr(),
            pins.pe13.base() == base.addr(),
            pins.pe14.base() == base.addr(),
            pins.pe15.base() == base.addr(),
            pins.pe16.base() == base.addr(),
            pins.pe17.base() == base.addr(),
            pins.pf0.base() == base.addr(),
            pins.pf1.base() == base.addr(),
            pins.pf2.base() == base.addr(),
            pins.pf3.base() == base.addr(),
            pins.pf4.base() == base.addr(),
            pins.pf5.base() == base.addr(),
            pins.pf6.base() == base.addr(),
            pins.pg0.base() == base.addr(),
            pins.pg1.base() == base.addr(),
            pins.pg2.base() == base.addr(),
            pins.pg3.base() == base.addr(),
            pins.pg4.base() == base.addr(),
            pins.pg5.base() == base.addr(),
            pins.pg6.base() == base.addr(),
            pins.pg7.base() == base.addr(),
            pins.pg8.base() == base.addr(),
            pins.pg9.base() == base.addr(),
            pins.pg10.base() == base.addr(),
            pins.pg11.base() == base.addr(),
            pins.pg12.base() == base.addr(),
            pins.pg13.base() == base.addr(),
            pins.pg14.base() == base.addr(),
            pins.pg15.base() == base.addr(),
            pins.pg16.base() == base.addr(),
            pins.pg17.base() == base.addr(),
            pins.pg18.base() == base.addr(),
    {
        Pins {
            pb0: Pin::steal(base),
            pb1: Pin::steal(base),
            pb2: Pin::steal(base),
            pb3: Pin::steal(base),
            pb4: Pin::steal(base),
            pb5: Pin::steal(base),
            pb6: Pin::steal(base),
            pb7: Pin::steal(base),
            pb8: Pin::steal(base),
            pb9: Pin::steal(base),
            pb10: Pin::steal(base),
            pb11: Pin::steal(base),
            pb12: Pin::steal(base),
            pc0: Pin::steal(base),
            pc1: Pin::steal(base),
            pc2: Pin::steal(base),
            pc3: Pin::steal(base),
            pc4: Pin::steal(base),
            pc5: Pin::steal(base),
            pc6: Pin::steal(base),
            pc7: Pin::steal(base),
            pd0: Pin::steal(base),
            pd1: Pin::steal(base),
            pd2: Pin::steal(base),
            pd3: Pin::steal(base),
            pd4: Pin::steal(base),
            pd5: Pin::steal(base),
            pd6: Pin::steal(base),
            pd7: Pin::steal(base),
            pd8: Pin::steal(base),
            pd9: Pin::steal(base),
            pd10: Pin::steal(base),
            pd11: Pin::steal(base),
            pd12: Pin::steal(base),
            pd13: Pin::steal(base),
            pd14: Pin::steal(base),
            pd15: Pin::steal(base),
            pd16: Pin::steal(base),
            pd17: Pin::steal(base),
            pd18: Pin::steal(base),
            pd19: Pin::steal(base),
            pd20: Pin::steal(base),
            pd21: Pin::steal(base),
            pd22: Pin::steal(base),
            pe0: Pin::steal(base),
            pe1: Pin::steal(base),
            pe2: Pin::steal(base),
            pe3: Pin::steal(base),
            pe4: Pin::steal(base),
            pe5: Pin::steal(base),
            pe6: Pin::steal(base),
            pe7: Pin::steal(base),
            pe8: Pin::steal(base),
            pe9: Pin::steal(base),
            pe10: Pin::steal(base),
            pe11: Pin::steal(base),
            pe12: Pin::steal(base),
            pe13: Pin::steal(base),
            pe14: Pin::steal(base),
            pe15: Pin::steal(base),
            pe16: Pin::steal(base),
            pe17: Pin::steal(base),
            pf0: Pin::steal(base),
            pf1: Pin::steal(base),
            pf2: Pin::steal(base),
            pf3: Pin::steal(base),
            pf4: Pin::steal(base),
            pf5: Pin::steal(base),
            pf6: Pin::steal(base),
            pg0: Pin::steal(base),
            pg1: Pin::steal(base),
            pg2: Pin::steal(base),
            pg3: Pin::steal(base),
            pg4: Pin::steal(base),
            pg5: Pin::steal(base),
            pg6: Pin::steal(base),
            pg7: Pin::steal(base),
            pg8: Pin::steal(base),
            pg9: Pin::steal(base),
            pg10: Pin::steal(base),
            pg11: Pin::steal(base),
            pg12: Pin::steal(base),
            pg13: Pin::steal(base),
            pg14: Pin::steal(base),
            pg15: Pin::steal(base),
            pg16: Pin::steal(base),
            pg17: Pin::steal(base),
            pg18: Pin::steal(base),
        }
    }
}

// UART PINS
impl<A: BaseAddress> Transmit<0> for Pin<A, b'B', 0, Function<6>> {
}

impl<A: BaseAddress> Transmit<2> for Pin<A, b'B', 0, Function<7>> {
}

impl<A: BaseAddress> Receive<0> for Pin<A, b'B', 1, Function<6>> {
}

impl<A: BaseAddress> Receive<2> for Pin<A, b'B', 1, Function<7>> {
}

impl<A: BaseAddress> Transmit<4> for Pin<A, b'B', 2, Function<7>> {
}

impl<A: BaseAddress> Receive<4> for Pin<A, b'B', 3, Function<7>> {
}

impl<A: BaseAddress> Transmit<5> for Pin<A, b'B', 4, Function<7>> {
}

impl<A: BaseAddress> Receive<5> for Pin<A, b'B', 5, Function<7>> {
}

impl<A: BaseAddress> Transmit<3> for Pin<A, b'B', 6, Function<7>> {
}

impl<A: BaseAddress> Receive<3> for Pin<A, b'B', 7, Function<7>> {
}

impl<A: BaseAddress> Transmit<0> for Pin<A, b'B', 8, Function<6>> {
}

impl<A: BaseAddress> Transmit<1> for Pin<A, b'B', 8, Function<7>> {
}

impl<A: BaseAddress> Receive<0> for Pin<A, b'B', 9, Function<6>> {
}

impl<A: BaseAddress> Receive<1> for Pin<A, b'B', 9, Function<7>> {
}

impl<A: BaseAddress> Transmit<2> for Pin<A, b'C', 0, Function<2>> {
}

impl<A: BaseAddress> Receive<2> for Pin<A, b'C', 1, Function<2>> {
}

impl<A: BaseAddress> Transmit<3> for Pin<A, b'C', 6, Function<4>> {
}

impl<A: BaseAddress> Receive<3> for Pin<A, b'C', 7, Function<4>> {
}

impl<A: BaseAddress> Transmit<2> for Pin<A, b'D', 1, Function<5>> {
}

impl<A: BaseAddress> Receive<2> for Pin<A, b'D', 2, Function<5>> {
}

impl<A: BaseAddress> Transmit<5> for Pin<A, b'D', 5, Function<5>> {
}

impl<A: BaseAddress> Receive<5> for Pin<A, b'D', 6, Function<5>> {
}

impl<A: BaseAddress> Transmit<4> for Pin<A, b'D', 7, Function<5>> {
}

impl<A: BaseAddress> Receive<4> for Pin<A, b'D', 8, Function<5>> {
}

impl<A: BaseAddress> Transmit<3> for Pin<A, b'D', 10, Function<5>> {
}

impl<A: BaseAddress> Receive<3> for Pin<A, b'D', 11, Function<5>> {
}

impl<A: BaseAddress> Transmit<1> for Pin<A, b'D', 21, Function<4>> {
}

impl<A: BaseAddress> Receive<1> for Pin<A, b'D', 22, Function<4>> {
}

impl<A: BaseAddress> Transmit<2> for Pin<A, b'E', 2, Function<3>> {
}

impl<A: BaseAddress> Transmit<0> for Pin<A, b'E', 2, Function<6>> {
}

impl<A: BaseAddress> Receive<2> for Pin<A, b'E', 3, Function<3>> {
}

impl<A: BaseAddress> Receive<0> for Pin<A, b'E', 3, Function<6>> {
}

impl<A: BaseAddress> Transmit<4> for Pin<A, b'E', 4, Function<3>> {
}

impl<A: BaseAddress> Receive<4> for Pin<A, b'E', 5, Function<3>> {
}

impl<A: BaseAddress> Transmit<5> for Pin<A, b'E', 6, Function<3>> {
}

impl<A: BaseAddress> Receive<5> for Pin<A, b'E', 7, Function<3>> {
}

impl<A: BaseAddress> Transmit<3> for Pin<A, b'E', 8, Function<5>> {
}

impl<A: BaseAddress> Receive<3> for Pin<A, b'E', 9, Function<5>> {
}

impl<A: BaseAddress> Transmit<1> for Pin<A, b'E', 10, Function<3>> {
}

impl<A: BaseAddress> Receive<1> for Pin<A, b'E', 11, Function<3>> {
}

impl<A: BaseAddress> Transmit<3> for Pin<A, b'G', 0, Function<3>> {
}

impl<A: BaseAddress> Receive<3> for Pin<A, b'G', 1, Function<3>> {
}

impl<A: BaseAddress> Transmit<4> for Pin<A, b'G', 2, Function<5>> {
}

impl<A: BaseAddress> Receive<4> for Pin<A, b'G', 3, Function<5>> {
}

impl<A: BaseAddress> Transmit<5> for Pin<A, b'G', 4, Function<3>> {
}

impl<A: BaseAddress> Receive<5> for Pin<A, b'G', 5, Function<3>> {
}

impl<A: BaseAddress> Transmit<1> for Pin<A, b'G', 6, Function<2>> {
}

impl<A: BaseAddress> Receive<1> for Pin<A, b'G', 7, Function<2>> {
}

impl<A: BaseAddress> Transmit<3> for Pin<A, b'G', 8, Function<5>> {
}

impl<A: BaseAddress> Receive<3> for Pin<A, b'G', 9, Function<5>> {
}

impl<A: BaseAddress> Transmit<2> for Pin<A, b'G', 17, Function<2>> {
}

impl<A: BaseAddress> Receive<2> for Pin<A, b'G', 18, Function<2>> {
}

// SPI PINS
impl<A: BaseAddress> Miso<1> for Pin<A, b'B', 9, Function<5>> {
}

impl<A: BaseAddress> Mosi<1> for Pin<A, b'B', 10, Function<5>> {
}

impl<A: BaseAddress> Clk<1> for Pin<A, b'B', 11, Function<5>> {
}

impl<A: BaseAddress> Clk<0> for Pin<A, b'C', 2, Function<2>> {
}

impl<A: BaseAddress> Mosi<0> for Pin<A, b'C', 4, Function<2>> {
}

impl<A: BaseAddress> Miso<0> for Pin<A, b'C', 5, Function<2>> {
}

impl<A: BaseAddress> Clk<1> for Pin<A, b'D', 11, Function<4>> {
}

impl<A: BaseAddress> Mosi<1> for Pin<A, b'D', 12, Function<4>> {
}

impl<A: BaseAddress> Miso<1> for Pin<A, b'D', 13, Function<4>> {
}

} // verus!
