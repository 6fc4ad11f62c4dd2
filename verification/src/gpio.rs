//! Allwinner GPIO controller.
//!
//! A pin carries its electrical mode in its type. Changing the mode consumes
//! the pin and gives a pin of the new type, together with the one access
//! that writes the new mode into the configuration register of the pin.

use vstd::prelude::*;
use core::marker::PhantomData;
use crate::base_address::{BaseAddress, Dynamic, Static};
use crate::mmio::{Access, Register};

verus! {

/// Generic Purpose Input/Output peripheral.
pub struct GPIO<A: BaseAddress> {
    base: A,
}

/// Gpio port register group.
#[derive(Clone, Copy, Debug)]
pub struct Port {
    /// 0x00 - configuration, four bits for each pin.
    pub cfg: [Register; 4],
    /// 0x10 - data, one bit for each pin.
    pub dat: Register,
    /// 0x14 - drive strength.
    pub drv: [Register; 4],
    /// 0x24 - pull up and pull down.
    pub pull: [Register; 2],
}

impl Port {
    /// Whether this is the register group that starts `offset` bytes into
    /// the peripheral at `base`.
    pub open spec fn is_at(self, base: usize, offset: int) -> bool {
        &&& forall|k: int|
            0 <= k < 4 ==> (#[trigger] self.cfg[k]) == (Register {
                base,
                offset: (offset + 4 * k) as usize,
            })
        &&& self.dat == (Register { base, offset: (offset + 0x10) as usize })
        &&& forall|k: int|
            0 <= k < 4 ==> (#[trigger] self.drv[k]) == (Register {
                base,
                offset: (offset + 0x14 + 4 * k) as usize,
            })
        &&& forall|k: int|
            0 <= k < 2 ==> (#[trigger] self.pull[k]) == (Register {
                base,
                offset: (offset + 0x24 + 4 * k) as usize,
            })
    }

    /// The register group that starts `offset` bytes into the peripheral at
    /// `base`.
    pub fn at(base: usize, offset: usize) -> (port: Self)
        requires
            offset + 0x28 <= usize::MAX,
        ensures
            port.is_at(base, offset as int),
    {
        Port {
            cfg: [
                Register { base, offset },
                Register { base, offset: offset + 0x04 },
                Register { base, offset: offset + 0x08 },
                Register { base, offset: offset + 0x0c },
            ],
            dat: Register { base, offset: offset + 0x10 },
            drv: [
                Register { base, offset: offset + 0x14 },
                Register { base, offset: offset + 0x18 },
                Register { base, offset: offset + 0x1c },
                Register { base, offset: offset + 0x20 },
            ],
            pull: [
                Register { base, offset: offset + 0x24 },
                Register { base, offset: offset + 0x28 },
            ],
        }
    }
}

/// External interrupt register group.
#[derive(Clone, Copy, Debug)]
pub struct Eint {
    /// 0x00 - configuration, four bits for each pin.
    pub cfg: [Register; 4],
    /// 0x10 - control, one enable bit for each pin.
    pub ctl: Register,
    /// 0x14 - status, one pending bit for each pin.
    pub status: Register,
    /// 0x18 - debounce.
    pub deb: Register,
}

impl Eint {
    /// Whether this is the register group that starts `offset` bytes into
    /// the peripheral at `base`.
    pub open spec fn is_at(self, base: usize, offset: int) -> bool {
        &&& forall|k: int|
            0 <= k < 4 ==> (#[trigger] self.cfg[k]) == (Register {
                base,
                offset: (offset + 4 * k) as usize,
            })
        &&& self.ctl == (Register { base, offset: (offset + 0x10) as usize })
        &&& self.status == (Register { base, offset: (offset + 0x14) as usize })
        &&& self.deb == (Register { base, offset: (offset + 0x18) as usize })
    }

    /// The register group that starts `offset` bytes into the peripheral at
    /// `base`.
    pub fn at(base: usize, offset: usize) -> (eint: Self)
        requires
            offset + 0x18 <= usize::MAX,
        ensures
            eint.is_at(base, offset as int),
    {
        Eint {
            cfg: [
                Register { base, offset },
                Register { base, offset: offset + 0x04 },
                Register { base, offset: offset + 0x08 },
                Register { base, offset: offset + 0x0c },
            ],
            ctl: Register { base, offset: offset + 0x10 },
            status: Register { base, offset: offset + 0x14 },
            deb: Register { base, offset: offset + 0x18 },
        }
    }
}

/// Input/Output Power register group.
#[derive(Clone, Copy, Debug)]
pub struct PioPow {
    pub mod_sel: Register,
    pub ms_ctl: Register,
    pub val: Register,
    pub vol_sel_ctl: Register,
}

impl PioPow {
    /// Whether this is the register group that starts `offset` bytes into
    /// the peripheral at `base`.
    pub open spec fn is_at(self, base: usize, offset: int) -> bool {
        &&& self.mod_sel == (Register { base, offset: offset as usize })
        &&& self.ms_ctl == (Register { base, offset: (offset + 0x04) as usize })
        &&& self.val == (Register { base, offset: (offset + 0x08) as usize })
        &&& self.vol_sel_ctl == (Register { base, offset: (offset + 0x10) as usize })
    }

    /// The register group that starts `offset` bytes into the peripheral at
    /// `base`.
    pub fn at(base: usize, offset: usize) -> (pow: Self)
        requires
            offset + 0x10 <= usize::MAX,
        ensures
            pow.is_at(base, offset as int),
    {
        PioPow {
            mod_sel: Register { base, offset },
            ms_ctl: Register { base, offset: offset + 0x04 },
            val: Register { base, offset: offset + 0x08 },
            vol_sel_ctl: Register { base, offset: offset + 0x10 },
        }
    }
}

/// Generic Purpose Input/Output registers.
#[derive(Clone, Copy, Debug)]
pub struct RegisterBlock {
    /// 0x30 - the ports B to G, 0x30 bytes each.
    pub port: [Port; 6],
    /// 0x220 - the external interrupts of the ports B to G, 0x20 bytes each.
    pub eint: [Eint; 6],
    /// 0x340 - input and output power.
    pub pio_pow: PioPow,
}

impl RegisterBlock {
    /// Whether this is the register block of the peripheral at `base`:
    /// every register group lies at its hardware offset.
    pub open spec fn is_at(self, base: usize) -> bool {
        &&& forall|p: int| 0 <= p < 6 ==> (#[trigger] self.port[p]).is_at(base, 0x30 + 0x30 * p)
        &&& forall|p: int| 0 <= p < 6 ==> (#[trigger] self.eint[p]).is_at(base, 0x220 + 0x20 * p)
        &&& self.pio_pow.is_at(base, 0x340)
    }

    /// The register block of the peripheral at `base`.
    pub fn at(base: usize) -> (block: Self)
        ensures
            block.is_at(base),
    {
        RegisterBlock {
            port: [
                Port::at(base, 0x30),
                Port::at(base, 0x60),
                Port::at(base, 0x90),
                Port::at(base, 0xc0),
                Port::at(base, 0xf0),
                Port::at(base, 0x120),
            ],
            eint: [
                Eint::at(base, 0x220),
                Eint::at(base, 0x240),
                Eint::at(base, 0x260),
                Eint::at(base, 0x280),
                Eint::at(base, 0x2a0),
                Eint::at(base, 0x2c0),
            ],
            pio_pow: PioPow::at(base, 0x340),
        }
    }
}

/// Whether `p` is the letter of a port, `B` to `G`, and `n` the number of
/// one of its pins.
pub open spec fn is_pin(p: u8, n: u8) -> bool {
    0x42 <= p <= 0x47 && n <= 31
}

/// Index of the port with the letter `p`.
pub open spec fn spec_port_index(p: u8) -> int {
    p - 0x42
}

/// Index of the configuration register that holds pin `n` of a port: eight
/// pins to a register.
pub open spec fn spec_cfg_reg_index(n: u8) -> int {
    n as int / 8
}

/// Number of the lowest bit of the field of pin `n` in its configuration
/// register: four bits to a pin.
pub open spec fn spec_cfg_field_index(n: u8) -> int {
    (n as int % 8) * 4
}

/// The configuration register of pin `n` of port `p` in the peripheral at
/// `base`.
pub open spec fn spec_cfg_register(base: usize, p: u8, n: u8) -> Register {
    Register {
        base,
        offset: (0x30 + 0x30 * spec_port_index(p) + 4 * spec_cfg_reg_index(n)) as usize,
    }
}

/// The access that writes the four bits `code` into the field of pin `n` of
/// port `p` and leaves the rest of the register as it is.
pub open spec fn spec_set_mode(base: usize, p: u8, n: u8, code: u8) -> Access {
    Access::Modify {
        reg: spec_cfg_register(base, p, n),
        clear: 0xFu32 << (spec_cfg_field_index(n) as u32),
        set: (code as u32) << (spec_cfg_field_index(n) as u32),
    }
}

/// Finds the port index, the index of the configuration register and the
/// lowest bit of the field of pin `n` of port `p`.
pub fn port_cfg_index(p: u8, n: u8) -> (index: (usize, usize, u8))
    requires
        is_pin(p, n),
    ensures
        index.0 == spec_port_index(p),
        index.1 == spec_cfg_reg_index(n),
        index.2 == spec_cfg_field_index(n),
        index.0 < 6,
        index.1 < 4,
        index.2 <= 28,
{
    let port_idx: usize = (p - 0x42) as usize;
    let cfg_reg_idx: usize = (n / 8) as usize;
    let cfg_field_idx: u8 = (n % 8) * 4;
    (port_idx, cfg_reg_idx, cfg_field_idx)
}

/// Finds the index of the port with the letter `p`.
pub fn port_index(p: u8) -> (index: usize)
    requires
        0x42 <= p <= 0x47,
    ensures
        index == spec_port_index(p),
        index < 6,
{
    (p - 0x42) as usize
}

impl<A: BaseAddress> GPIO<A> {
    /// The address the peripheral lies at.
    pub closed spec fn base(&self) -> usize {
        self.base.addr()
    }

    /// The registers of this peripheral.
    pub fn registers(&self) -> (block: RegisterBlock)
        ensures
            block.is_at(self.base()),
    {
        RegisterBlock::at(self.base.ptr())
    }

    /// Set GPIO pin mode.
    ///
    /// Takes the pin and returns it in its new mode, together with the
    /// access that writes the mode into the configuration register of the
    /// pin in this peripheral.
    #[inline]
    pub fn set_mode<const P: u8, const N: u8, OldM: PinMode, NewM: PinMode>(
        &self,
        pin: Pin<A, P, N, OldM>,
    ) -> (moved: (Pin<A, P, N, NewM>, Access))
        requires
            is_pin(P, N),
            NewM::spec_value() <= 15,
        ensures
            moved.0.base() == pin.base(),
            moved.1 == spec_set_mode(self.base(), P, N, NewM::spec_value()),
    {
        let access = mode_access(self.base.ptr(), P, N, NewM::value());
        (Pin { base: pin.base, _mode: PhantomData }, access)
    }
}

impl<const B: usize> GPIO<Static<B>> {
    /// Takes the peripheral at the address `B`. Whoever calls this answers
    /// for there being no second handle to the same peripheral.
    #[inline]
    pub fn steal_static() -> (gpio: GPIO<Static<B>>)
        ensures
            gpio.base() == B,
    {
        GPIO { base: Static::<B> }
    }
}

impl GPIO<Dynamic> {
    /// Takes the peripheral at `base`. Whoever calls this answers for there
    /// being no second handle to the same peripheral.
    #[inline]
    pub fn steal_dynamic(base: usize) -> (gpio: GPIO<Dynamic>)
        ensures
            gpio.base() == base,
    {
        GPIO { base: Dynamic::new(base) }
    }
}

/// Builds the access that writes a mode into the field of a pin.
fn mode_access(base: usize, p: u8, n: u8, code: u8) -> (access: Access)
    requires
        is_pin(p, n),
    ensures
        access == spec_set_mode(base, p, n, code),
{
    let (port_idx, cfg_reg_idx, cfg_field_idx) = port_cfg_index(p, n);
    let block = RegisterBlock::at(base);
    let reg = block.port[port_idx].cfg[cfg_reg_idx];
    Access::Modify {
        reg,
        clear: 0xFu32 << (cfg_field_idx as u32),
        set: (code as u32) << (cfg_field_idx as u32),
    }
}

/// Individual GPIO pin: pin `N` of the port with the letter `P`, in the
/// mode `M`.
pub struct Pin<A: BaseAddress, const P: u8, const N: u8, M> {
    base: A,
    _mode: PhantomData<M>,
}

impl<A: BaseAddress, const P: u8, const N: u8, M: PinMode> Pin<A, P, N, M> {
    /// The address of the peripheral the pin belongs to.
    pub closed spec fn base(&self) -> usize {
        self.base.addr()
    }

    /// Takes pin `N` of port `P` of the peripheral at `base`, in the mode
    /// `M`. Whoever calls this answers for the pin being in that mode and
    /// for there being no second handle to it.
    pub fn steal(base: A) -> (pin: Self)
        ensures
            pin.base() == base.addr(),
    {
        Pin { base, _mode: PhantomData }
    }

    /// Disables the pin.
    #[inline]
    pub fn into_disabled(self) -> (moved: (Pin<A, P, N, Disabled>, Access))
        requires
            is_pin(P, N),
        ensures
            moved.0.base() == self.base(),
            moved.1 == spec_set_mode(self.base(), P, N, 15),
    {
        let access = mode_access(self.base.ptr(), P, N, Disabled::value());
        (Pin { base: self.base, _mode: PhantomData }, access)
    }

    /// Configures the pin to operate as an input pin.
    #[inline]
    pub fn into_input(self) -> (moved: (Pin<A, P, N, Input>, Access))
        requires
            is_pin(P, N),
        ensures
            moved.0.base() == self.base(),
            moved.1 == spec_set_mode(self.base(), P, N, 0),
    {
        let access = mode_access(self.base.ptr(), P, N, Input::value());
        (Pin { base: self.base, _mode: PhantomData }, access)
    }

    /// Configures the pin to operate as an output pin.
    #[inline]
    pub fn into_output(self) -> (moved: (Pin<A, P, N, Output>, Access))
        requires
            is_pin(P, N),
        ensures
            moved.0.base() == self.base(),
            moved.1 == spec_set_mode(self.base(), P, N, 1),
    {
        let access = mode_access(self.base.ptr(), P, N, Output::value());
        (Pin { base: self.base, _mode: PhantomData }, access)
    }

    /// Configures the pin to operate as an external interrupt.
    #[inline]
    pub fn into_eint(self) -> (moved: (Pin<A, P, N, EintMode>, Access))
        requires
            is_pin(P, N),
        ensures
            moved.0.base() == self.base(),
            moved.1 == spec_set_mode(self.base(), P, N, 14),
    {
        let access = mode_access(self.base.ptr(), P, N, EintMode::value());
        (Pin { base: self.base, _mode: PhantomData }, access)
    }

    /// Configures the pin to operate as an alternate function.
    #[inline]
    pub fn into_function<const F: u8>(self) -> (moved: (Pin<A, P, N, Function<F>>, Access))
        requires
            is_pin(P, N),
            F <= 15,
        ensures
            moved.0.base() == self.base(),
            moved.1 == spec_set_mode(self.base(), P, N, F),
    {
        let access = mode_access(self.base.ptr(), P, N, Function::<F>::value());
        (Pin { base: self.base, _mode: PhantomData }, access)
    }

    /// The peripheral the pin belongs to.
    #[inline(always)]
    pub fn gpio(&self) -> (base: usize)
        ensures
            base == self.base(),
    {
        self.base.ptr()
    }

    /// The configuration register that holds the mode of the pin.
    pub fn cfg_register(&self) -> (reg: Register)
        requires
            is_pin(P, N),
        ensures
            reg == spec_cfg_register(self.base(), P, N),
    {
        let (port_idx, cfg_reg_idx, _) = port_cfg_index(P, N);
        RegisterBlock::at(self.base.ptr()).port[port_idx].cfg[cfg_reg_idx]
    }

    /// The data register of the port of the pin.
    pub fn data_register(&self) -> (reg: Register)
        requires
            is_pin(P, N),
        ensures
            reg == (Register {
                base: self.base(),
                offset: (0x40 + 0x30 * spec_port_index(P)) as usize,
            }),
    {
        RegisterBlock::at(self.base.ptr()).port[port_index(P)].dat
    }
}

/// The mode that the configuration register `cfg` holds for pin `n`.
pub open spec fn spec_mode_code(cfg: u32, n: u8) -> u32 {
    (cfg >> (spec_cfg_field_index(n) as u32)) & 0xF
}

/// Reads the mode of pin `n` from the word `cfg` of its configuration
/// register.
pub fn mode_code(cfg: u32, n: u8) -> (code: u8)
    requires
        n <= 31,
    ensures
        code == spec_mode_code(cfg, n),
        code <= 15,
{
    let field: u32 = ((n % 8) * 4) as u32;
    proof {
        crate::bits::lemma_and_bounded(cfg >> field, 0xF);
    }
    ((cfg >> field) & 0xF) as u8
}

/// The bit-level fact behind every change of mode.
proof fn lemma_field_written(word: u32, field: u32, code: u32)
    by (bit_vector)
    requires
        field <= 28,
        code <= 15,
    ensures
        ((((word & !(0xFu32 << field)) | (code << field)) >> field) & 0xF) == code,
        ((word & !(0xFu32 << field)) | (code << field)) & !(0xFu32 << field) == word & !(0xFu32
            << field),
{
}

/// Changing the mode of a pin writes only the four bits of the pin: the
/// mode read back from the register is the mode written, and every other
/// bit of the register is as it was.
pub proof fn lemma_set_mode_writes_field(base: usize, p: u8, n: u8, code: u8, before: u32)
    requires
        is_pin(p, n),
        code <= 15,
    ensures
        spec_mode_code(spec_set_mode(base, p, n, code).stored(before), n) == code,
        spec_set_mode(base, p, n, code).stored(before) & !(0xFu32 << (spec_cfg_field_index(n)
            as u32)) == before & !(0xFu32 << (spec_cfg_field_index(n) as u32)),
{
    lemma_field_written(before, spec_cfg_field_index(n) as u32, code as u32);
}

/// External interrupt event.
#[derive(Clone, Copy, Debug, PartialEq, Eq, Structural)]
pub enum Event {
    PositiveEdge,
    NegativeEdge,
    HighLevel,
    LowLevel,
    BothEdges,
}

impl Event {
    /// The value of the register field that selects this event.
    pub open spec fn code(self) -> u32 {
        match self {
            Event::PositiveEdge => 0,
            Event::NegativeEdge => 1,
            Event::HighLevel => 2,
            Event::LowLevel => 3,
            Event::BothEdges => 4,
        }
    }
}

/// Pin that can receive external interrupt.
pub trait EintPin {
    /// The address of the peripheral the pin belongs to.
    spec fn peripheral(&self) -> usize;

    /// The letter of the port of the pin.
    spec fn port(&self) -> u8;

    /// The number of the pin in its port.
    spec fn number(&self) -> u8;

    /// The access that selects the event the pin listens to.
    fn listen(&mut self, event: Event) -> (access: Access)
        requires
            is_pin(old(self).port(), old(self).number()),
        ensures
            access == (Access::Modify {
                reg: Register {
                    base: old(self).peripheral(),
                    offset: (0x220 + 0x20 * spec_port_index(old(self).port()) + 4
                        * spec_cfg_reg_index(old(self).number())) as usize,
                },
                clear: 0xFu32 << (spec_cfg_field_index(old(self).number()) as u32),
                set: event.code() << (spec_cfg_field_index(old(self).number()) as u32),
            }),
    ;

    /// The access that enables the interrupt of the pin.
    fn enable_interrupt(&mut self) -> (access: Access)
        requires
            is_pin(old(self).port(), old(self).number()),
        ensures
            access == (Access::Modify {
                reg: Register {
                    base: old(self).peripheral(),
                    offset: (0x230 + 0x20 * spec_port_index(old(self).port())) as usize,
                },
                clear: 0,
                set: 1u32 << old(self).number(),
            }),
    ;

    /// The access that disables the interrupt of the pin.
    fn disable_interrupt(&mut self) -> (access: Access)
        requires
            is_pin(old(self).port(), old(self).number()),
        ensures
            access == (Access::Modify {
                reg: Register {
                    base: old(self).peripheral(),
                    offset: (0x230 + 0x20 * spec_port_index(old(self).port())) as usize,
                },
                clear: 1u32 << old(self).number(),
                set: 0,
            }),
    ;

    /// The access that clears the pending bit of the pin: the bit is
    /// cleared by writing a one to it.
    fn clear_interrupt_pending_bit(&mut self) -> (access: Access)
        requires
            is_pin(old(self).port(), old(self).number()),
        ensures
            access == (Access::Write {
                reg: Register {
                    base: old(self).peripheral(),
                    offset: (0x234 + 0x20 * spec_port_index(old(self).port())) as usize,
                },
                value: 1u32 << old(self).number(),
            }),
    ;

    /// Tests the pending bit of the pin in the word `status` read from the
    /// status register of its port.
    fn check_interrupt(&mut self, status: u32) -> (pending: bool)
        requires
            is_pin(old(self).port(), old(self).number()),
        ensures
            pending == (status & (1u32 << old(self).number()) != 0),
    ;
}

impl<A: BaseAddress, const P: u8, const N: u8> EintPin for Pin<A, P, N, EintMode> {
    closed spec fn peripheral(&self) -> usize {
        self.base.addr()
    }

    open spec fn port(&self) -> u8 {
        P
    }

    open spec fn number(&self) -> u8 {
        N
    }

    #[inline]
    fn listen(&mut self, event: Event) -> (access: Access) {
        let event_id: u32 = match event {
            Event::PositiveEdge => 0,
            Event::NegativeEdge => 1,
            Event::HighLevel => 2,
            Event::LowLevel => 3,
            Event::BothEdges => 4,
        };
        let (port_idx, cfg_reg_idx, cfg_field_idx) = port_cfg_index(P, N);
        let block = RegisterBlock::at(self.base.ptr());
        let reg = block.eint[port_idx].cfg[cfg_reg_idx];
        Access::Modify {
            reg,
            clear: 0xFu32 << (cfg_field_idx as u32),
            set: event_id << (cfg_field_idx as u32),
        }
    }

    #[inline]
    fn enable_interrupt(&mut self) -> (access: Access) {
        let block = RegisterBlock::at(self.base.ptr());
        Access::Modify { reg: block.eint[port_index(P)].ctl, clear: 0, set: 1u32 << N }
    }

    #[inline]
    fn disable_interrupt(&mut self) -> (access: Access) {
        let block = RegisterBlock::at(self.base.ptr());
        Access::Modify { reg: block.eint[port_index(P)].ctl, clear: 1u32 << N, set: 0 }
    }

    #[inline]
    fn clear_interrupt_pending_bit(&mut self) -> (access: Access) {
        let block = RegisterBlock::at(self.base.ptr());
        Access::Write { reg: block.eint[port_index(P)].status, value: 1u32 << N }
    }

    #[inline]
    fn check_interrupt(&mut self, status: u32) -> (pending: bool) {
        status & (1u32 << N) != 0
    }
}

impl<A: BaseAddress, const P: u8, const N: u8> Pin<A, P, N, Input> {
    /// Tests whether the pin is high in the word `dat` read from the data
    /// register of its port.
    #[inline]
    pub fn is_high(&self, dat: u32) -> (high: bool)
        requires
            is_pin(P, N),
        ensures
            high == (dat & (1u32 << N) != 0),
    {
        dat & (1u32 << N) != 0
    }

    /// Tests whether the pin is low in the word `dat` read from the data
    /// register of its port.
    #[inline]
    pub fn is_low(&self, dat: u32) -> (low: bool)
        requires
            is_pin(P, N),
        ensures
            low == (dat & (1u32 << N) == 0),
    {
        dat & (1u32 << N) == 0
    }
}

impl<A: BaseAddress, const P: u8, const N: u8> Pin<A, P, N, Output> {
    /// The access that drives the pin low.
    #[inline]
    pub fn set_low(&mut self) -> (access: Access)
        requires
            is_pin(P, N),
        ensures
            access == (Access::Modify {
                reg: Register {
                    base: old(self).base(),
                    offset: (0x40 + 0x30 * spec_port_index(P)) as usize,
                },
                clear: 1u32 << N,
                set: 0,
            }),
            final(self).base() == old(self).base(),
    {
        let block = RegisterBlock::at(self.base.ptr());
        Access::Modify { reg: block.port[port_index(P)].dat, clear: 1u32 << N, set: 0 }
    }

    /// The access that drives the pin high.
    #[inline]
    pub fn set_high(&mut self) -> (access: Access)
        requires
            is_pin(P, N),
        ensures
            access == (Access::Modify {
                reg: Register {
                    base: old(self).base(),
                    offset: (0x40 + 0x30 * spec_port_index(P)) as usize,
                },
                clear: 0,
                set: 1u32 << N,
            }),
            final(self).base() == old(self).base(),
    {
        let block = RegisterBlock::at(self.base.ptr());
        Access::Modify { reg: block.port[port_index(P)].dat, clear: 0, set: 1u32 << N }
    }

    /// Tests whether the pin is driven high in the word `dat` read from the
    /// data register of its port.
    #[inline]
    pub fn is_set_high(&self, dat: u32) -> (high: bool)
        requires
            is_pin(P, N),
        ensures
            high == (dat & (1u32 << N) != 0),
    {
        dat & (1u32 << N) != 0
    }

    /// Tests whether the pin is driven low in the word `dat` read from the
    /// data register of its port.
    #[inline]
    pub fn is_set_low(&self, dat: u32) -> (low: bool)
        requires
            is_pin(P, N),
        ensures
            low == (dat & (1u32 << N) == 0),
    {
        dat & (1u32 << N) == 0
    }
}

/// Input mode (type state).
pub struct Input;

/// Output mode (type state).
pub struct Output;

/// Function modes (type state).
///
/// N should be in 2..=8.
pub struct Function<const N: u8>;

/// External interrupt mode (type state).
pub struct EintMode;

/// Disabled mode (type state).
pub struct Disabled;

/// Valid GPIO pin mode.
pub trait PinMode {
    /// GPIO mode value as is represented in `cfg_reg` register.
    spec fn spec_value() -> u8;

    /// Returns the GPIO mode value as is represented in `cfg_reg` register.
    fn value() -> (v: u8)
        ensures
            v == Self::spec_value(),
    ;
}

impl PinMode for Input {
    open spec fn spec_value() -> u8 {
        0
    }

    fn value() -> (v: u8) {
        0
    }
}

impl PinMode for Output {
    open spec fn spec_value() -> u8 {
        1
    }

    fn value() -> (v: u8) {
        1
    }
}

impl<const N: u8> PinMode for Function<N> {
    open spec fn spec_value() -> u8 {
        N
    }

    fn value() -> (v: u8) {
        N
    }
}

impl PinMode for EintMode {
    open spec fn spec_value() -> u8 {
        14
    }

    fn value() -> (v: u8) {
        14
    }
}

impl PinMode for Disabled {
    open spec fn spec_value() -> u8 {
        15
    }

    fn value() -> (v: u8) {
        15
    }
}

} // verus!
