//! Physical layer peripheral of DDR SDRAM.

use vstd::prelude::*;
use crate::base_address::{BaseAddress, Dynamic, Static};
use crate::mmio::Register;

verus! {

/// Physical layer peripheral of DDR SDRAM.
pub struct PHY<A: BaseAddress> {
    base: A,
}

/// DATX8 register group: the registers of one byte lane, 0x54 bytes of
/// them. The groups of the lanes lie 0x80 bytes apart.
#[derive(Clone, Copy, Debug)]
pub struct Datx8 {
    /// 0x00
    pub mdlr: Register,
    /// 0x04 ..= 0x0c
    pub lcdlr: [Register; 3],
    /// 0x10 ..= 0x38 - IO configuration register
    pub iocr: [Register; 11],
    /// 0x3c
    pub sdlr6: Register,
    /// 0x40
    pub gtr: Register,
    /// 0x44
    pub gcr: Register,
    /// 0x48 - general status register 0, read only
    pub gsr0: Register,
    /// 0x4c
    pub gsr1: Register,
    /// 0x50
    pub gsr2: Register,
}

impl Datx8 {
    /// Whether this is the register group that starts `offset` bytes into
    /// the peripheral at `base`.
    pub open spec fn is_at(self, base: usize, offset: int) -> bool {
        &&& self.mdlr == (Register { base, offset: (offset + 0x00) as usize })
        &&& forall|k: int|
            0 <= k < 3 ==> (#[trigger] self.lcdlr[k]) == (Register {
                base,
                offset: (offset + 0x04 + 4 * k) as usize,
            })
        &&& forall|k: int|
            0 <= k < 11 ==> (#[trigger] self.iocr[k]) == (Register {
                base,
                offset: (offset + 0x10 + 4 * k) as usize,
            })
        &&& self.sdlr6 == (Register { base, offset: (offset + 0x3c) as usize })
        &&& self.gtr == (Register { base, offset: (offset + 0x40) as usize })
        &&& self.gcr == (Register { base, offset: (offset + 0x44) as usize })
        &&& self.gsr0 == (Register { base, offset: (offset + 0x48) as usize })
        &&& self.gsr1 == (Register { base, offset: (offset + 0x4c) as usize })
        &&& self.gsr2 == (Register { base, offset: (offset + 0x50) as usize })
    }

    /// The register group that starts `offset` bytes into the peripheral at
    /// `base`.
    pub fn at(base: usize, offset: usize) -> (lane: Self)
        requires
            offset + 0x50 <= usize::MAX,
        ensures
            lane.is_at(base, offset as int),
    {
        Datx8 {
            mdlr: Register { base, offset: offset + 0x00 },
            lcdlr: [
                Register { base, offset: offset + 0x04 },
                Register { base, offset: offset + 0x08 },
                Register { base, offset: offset + 0x0c },
            ],
            iocr: [
                Register { base, offset: offset + 0x10 },
                Register { base, offset: offset + 0x14 },
                Register { base, offset: offset + 0x18 },
                Register { base, offset: offset + 0x1c },
                Register { base, offset: offset + 0x20 },
                Register { base, offset: offset + 0x24 },
                Register { base, offset: offset + 0x28 },
                Register { base, offset: offset + 0x2c },
                Register { base, offset: offset + 0x30 },
                Register { base, offset: offset + 0x34 },
                Register { base, offset: offset + 0x38 },
            ],
            sdlr6: Register { base, offset: offset + 0x3c },
            gtr: Register { base, offset: offset + 0x40 },
            gcr: Register { base, offset: offset + 0x44 },
            gsr0: Register { base, offset: offset + 0x48 },
            gsr1: Register { base, offset: offset + 0x4c },
            gsr2: Register { base, offset: offset + 0x50 },
        }
    }
}

/// Physical layer peripheral registers.
#[derive(Clone, Copy, Debug)]
pub struct RegisterBlock {
    /// 0x00 - PHY initialization register
    pub pir: Register,
    /// 0x04
    pub pwrctl: Register,
    /// 0x08
    pub mrctrl0: Register,
    /// 0x0c
    pub clken: Register,
    /// 0x10 ..= 0x14 - PHY general status registers
    pub pgsr: [Register; 2],
    /// 0x18
    pub statr: Register,
    /// 0x2c
    pub lp3mr11: Register,
    /// 0x30 ..= 0x3c - mode registers
    pub mr: [Register; 4],
    /// 0x44 ..= 0x54 - PHY timing registers
    pub ptr: [Register; 5],
    /// 0x58 ..= 0x78 - DRAM timing registers
    pub dramtmg: [Register; 9],
    /// 0x7c
    pub odtcfg: Register,
    /// 0x80 ..= 0x84 - PHY interface timing registers
    pub pitmg: [Register; 2],
    /// 0x88
    pub lptpr: Register,
    /// 0x8c
    pub rfshctl0: Register,
    /// 0x90 - refresh timing
    pub rfshtmg: Register,
    /// 0x94
    pub rfshctl1: Register,
    /// 0x98
    pub pwrtmg: Register,
    /// 0x9c
    pub asrc: Register,
    /// 0xa0
    pub asrtc: Register,
    /// 0xb8
    pub vtfcr: Register,
    /// 0xbc
    pub dqsgmr: Register,
    /// 0xc0
    pub dtcr: Register,
    /// 0xc4
    pub dtar0: Register,
    /// 0x100 ..= 0x10c - PHY general configuration registers
    pub pgcr: [Register; 4],
    /// 0x110
    pub iovcr0: Register,
    /// 0x114
    pub iovcr1: Register,
    /// 0x11c
    pub dxccr: Register,
    /// 0x120
    pub odtmap: Register,
    /// 0x124 ..= 0x128
    pub zqctl: [Register; 2],
    /// 0x140 - ZQ control register
    pub zqcr: Register,
    /// 0x144 - ZQ status register
    pub zqsr: Register,
    /// 0x148 ..= 0x150 - ZQ data registers
    pub zqdr: [Register; 3],
    /// 0x1c0
    pub sched: Register,
    /// 0x1c4 ..= 0x1c8
    pub perfhpr: [Register; 2],
    /// 0x1cc ..= 0x1d0
    pub perflpr: [Register; 2],
    /// 0x1d4 ..= 0x1d8
    pub perfwr: [Register; 2],
    /// 0x200
    pub acmdlr: Register,
    /// 0x204
    pub acldlr: Register,
    /// 0x208
    pub aciocr0: Register,
    /// 0x300 ..= 0x4fc - the byte lanes
    pub datx: [Datx8; 4],
    /// 0x888
    pub upd2: Register,
}

impl RegisterBlock {
    /// Whether this is the register block of the peripheral at `base`:
    /// every register lies at its hardware offset.
    pub open spec fn is_at(self, base: usize) -> bool {
        &&& self.pir == (Register { base, offset: 0x00 })
        &&& self.pwrctl == (Register { base, offset: 0x04 })
        &&& self.mrctrl0 == (Register { base, offset: 0x08 })
        &&& self.clken == (Register { base, offset: 0x0c })
        &&& forall|k: int|
            0 <= k < 2 ==> (#[trigger] self.pgsr[k]) == (Register {
                base,
                offset: (0x10 + 4 * k) as usize,
            })
        &&& self.statr == (Register { base, offset: 0x18 })
        &&& self.lp3mr11 == (Register { base, offset: 0x2c })
        &&& forall|k: int|
            0 <= k < 4 ==> (#[trigger] self.mr[k]) == (Register {
                base,
                offset: (0x30 + 4 * k) as usize,
            })
        &&& forall|k: int|
            0 <= k < 5 ==> (#[trigger] self.ptr[k]) == (Register {
                base,
                offset: (0x44 + 4 * k) as usize,
            })
        &&& forall|k: int|
            0 <= k < 9 ==> (#[trigger] self.dramtmg[k]) == (Register {
                base,
                offset: (0x58 + 4 * k) as usize,
            })
        &&& self.odtcfg == (Register { base, offset: 0x7c })
        &&& forall|k: int|
            0 <= k < 2 ==> (#[trigger] self.pitmg[k]) == (Register {
                base,
                offset: (0x80 + 4 * k) as usize,
            })
        &&& self.lptpr == (Register { base, offset: 0x88 })
        &&& self.rfshctl0 == (Register { base, offset: 0x8c })
        &&& self.rfshtmg == (Register { base, offset: 0x90 })
        &&& self.rfshctl1 == (Register { base, offset: 0x94 })
        &&& self.pwrtmg == (Register { base, offset: 0x98 })
        &&& self.asrc == (Register { base, offset: 0x9c })
        &&& self.asrtc == (Register { base, offset: 0xa0 })
        &&& self.vtfcr == (Register { base, offset: 0xb8 })
        &&& self.dqsgmr == (Register { base, offset: 0xbc })
        &&& self.dtcr == (Register { base, offset: 0xc0 })
        &&& self.dtar0 == (Register { base, offset: 0xc4 })
        &&& forall|k: int|
            0 <= k < 4 ==> (#[trigger] self.pgcr[k]) == (Register {
                base,
                offset: (0x100 + 4 * k) as usize,
            })
        &&& self.iovcr0 == (Register { base, offset: 0x110 })
        &&& self.iovcr1 == (Register { base, offset: 0x114 })
        &&& self.dxccr == (Register { base, offset: 0x11c })
        &&& self.odtmap == (Register { base, offset: 0x120 })
        &&& forall|k: int|
            0 <= k < 2 ==> (#[trigger] self.zqctl[k]) == (Register {
                base,
                offset: (0x124 + 4 * k) as usize,
            })
        &&& self.zqcr == (Register { base, offset: 0x140 })
        &&& self.zqsr == (Register { base, offset: 0x144 })
        &&& forall|k: int|
            0 <= k < 3 ==> (#[trigger] self.zqdr[k]) == (Register {
                base,
                offset: (0x148 + 4 * k) as usize,
            })
        &&& self.sched == (Register { base, offset: 0x1c0 })
        &&& forall|k: int|
            0 <= k < 2 ==> (#[trigger] self.perfhpr[k]) == (Register {
                base,
                offset: (0x1c4 + 4 * k) as usize,
            })
        &&& forall|k: int|
            0 <= k < 2 ==> (#[trigger] self.perflpr[k]) == (Register {
                base,
                offset: (0x1cc + 4 * k) as usize,
            })
        &&& forall|k: int|
            0 <= k < 2 ==> (#[trigger] self.perfwr[k]) == (Register {
                base,
                offset: (0x1d4 + 4 * k) as usize,
            })
        &&& self.acmdlr == (Register { base, offset: 0x200 })
        &&& self.acldlr == (Register { base, offset: 0x204 })
        &&& self.aciocr0 == (Register { base, offset: 0x208 })
        &&& forall|k: int| 0 <= k < 4 ==> (#[trigger] self.datx[k]).is_at(base, 0x300 + 0x80 * k)
        &&& self.upd2 == (Register { base, offset: 0x888 })
    }

    /// The register block of the peripheral at `base`.
    pub fn at(base: usize) -> (block: Self)
        ensures
            block.is_at(base),
    {
        RegisterBlock {
            pir: Register { base, offset: 0x00 },
            pwrctl: Register { base, offset: 0x04 },
            mrctrl0: Register { base, offset: 0x08 },
            clken: Register { base, offset: 0x0c },
            pgsr: [
                Register { base, offset: 0x10 },
                Register { base, offset: 0x14 },
            ],
            statr: Register { base, offset: 0x18 },
            lp3mr11: Register { base, offset: 0x2c },
            mr: [
                Register { base, offset: 0x30 },
                Register { base, offset: 0x34 },
                Register { base, offset: 0x38 },
                Register { base, offset: 0x3c },
            ],
            ptr: [
                Register { base, offset: 0x44 },
                Register { base, offset: 0x48 },
                Register { base, offset: 0x4c },
                Register { base, offset: 0x50 },
                Register { base, offset: 0x54 },
            ],
            dramtmg: [
                Register { base, offset: 0x58 },
                Register { base, offset: 0x5c },
                Register { base, offset: 0x60 },
                Register { base, offset: 0x64 },
                Register { base, offset: 0x68 },
                Register { base, offset: 0x6c },
                Register { base, offset: 0x70 },
                Register { base, offset: 0x74 },
                Register { base, offset: 0x78 },
            ],
            odtcfg: Register { base, offset: 0x7c },
            pitmg: [
                Register { base, offset: 0x80 },
                Register { base, offset: 0x84 },
            ],
            lptpr: Register { base, offset: 0x88 },
            rfshctl0: Register { base, offset: 0x8c },
            rfshtmg: Register { base, offset: 0x90 },
            rfshctl1: Register { base, offset: 0x94 },
            pwrtmg: Register { base, offset: 0x98 },
            asrc: Register { base, offset: 0x9c },
            asrtc: Register { base, offset: 0xa0 },
            vtfcr: Register { base, offset: 0xb8 },
            dqsgmr: Register { base, offset: 0xbc },
            dtcr: Register { base, offset: 0xc0 },
            dtar0: Register { base, offset: 0xc4 },
            pgcr: [
                Register { base, offset: 0x100 },
                Register { base, offset: 0x104 },
                Register { base, offset: 0x108 },
                Register { base, offset: 0x10c },
            ],
            iovcr0: Register { base, offset: 0x110 },
            iovcr1: Register { base, offset: 0x114 },
            dxccr: Register { base, offset: 0x11c },
            odtmap: Register { base, offset: 0x120 },
            zqctl: [
                Register { base, offset: 0x124 },
                Register { base, offset: 0x128 },
            ],
            zqcr: Register { base, offset: 0x140 },
            zqsr: Register { base, offset: 0x144 },
            zqdr: [
                Register { base, offset: 0x148 },
                Register { base, offset: 0x14c },
                Register { base, offset: 0x150 },
            ],
            sched: Register { base, offset: 0x1c0 },
            perfhpr: [
                Register { base, offset: 0x1c4 },
                Register { base, offset: 0x1c8 },
            ],
            perflpr: [
                Register { base, offset: 0x1cc },
                Register { base, offset: 0x1d0 },
            ],
            perfwr: [
                Register { base, offset: 0x1d4 },
                Register { base, offset: 0x1d8 },
            ],
            acmdlr: Register { base, offset: 0x200 },
            acldlr: Register { base, offset: 0x204 },
            aciocr0: Register { base, offset: 0x208 },
            datx: [
                Datx8::at(base, 0x300),
                Datx8::at(base, 0x380),
                Datx8::at(base, 0x400),
                Datx8::at(base, 0x480),
            ],
            upd2: Register { base, offset: 0x888 },
        }
    }
}

/// Data pin width.
#[derive(Clone, Copy, Debug, PartialEq, Eq, Structural)]
pub enum DqWidth {
    /// Half DQ width.
    X8,
    /// Full DQ width.
    X16,
}

/// Number of ranks.
#[derive(Clone, Copy, Debug, PartialEq, Eq, Structural)]
pub enum Ranks {
    /// One rank.
    Single,
    /// Two ranks.
    Dual,
}

/// What the DQS gate training tells about the memory behind the
/// controller.
#[derive(Clone, Copy, Debug, PartialEq, Eq, Structural)]
pub struct Geometry {
    pub ranks: Ranks,
    pub width: DqWidth,
}

/// DQS gate error flag of the general status register 0.
pub const QSGERR: u32 = 0x0040_0000;

/// The DQS gate error bits of a byte lane, one for each rank, in the word of
/// its general status register 0.
pub open spec fn lane_errors(gsr0: u32) -> u32 {
    (gsr0 >> 26u32) & 0xf
}

/// What the status words after DQS gate training mean.
///
/// Without an error there are two ranks of full width. With an error, the
/// bit of rank 1 in the lanes decides: set in both lanes, one rank of full
/// width; set in lane 0 only, one rank of half width; clear in lane 0 and
/// no error at all in lane 1, two ranks of half width. What any other word
/// of lane 1 means is not known.
pub open spec fn spec_dqs_gate_detect(pgsr0: u32, dx0_gsr0: u32, dx1_gsr0: u32) -> Option<
    Geometry,
> {
    if pgsr0 & QSGERR == 0 {
        Some(Geometry { ranks: Ranks::Dual, width: DqWidth::X16 })
    } else if lane_errors(dx0_gsr0) & 0x2 != 0 {
        if lane_errors(dx1_gsr0) & 0x2 != 0 {
            Some(Geometry { ranks: Ranks::Single, width: DqWidth::X16 })
        } else {
            Some(Geometry { ranks: Ranks::Single, width: DqWidth::X8 })
        }
    } else if lane_errors(dx1_gsr0) != 0 {
        None
    } else {
        Some(Geometry { ranks: Ranks::Dual, width: DqWidth::X8 })
    }
}

impl<A: BaseAddress> PHY<A> {
    /// The address the peripheral lies at.
    pub closed spec fn base(&self) -> usize {
        self.base.addr()
    }

    /// The registers of this peripheral.
    pub fn registers(&self) -> (block: RegisterBlock)
        ensures
            block.is_at(self.base()),
    {
        RegisterBlock::at(self.base.ptr())
    }

    /// Tests the DQS gate error flag in the word read from the general
    /// status register 0. Only when it is set do the status words of the
    /// lanes matter.
    #[inline]
    pub fn dqs_gate_error(&self, pgsr0: u32) -> (error: bool)
        ensures
            error == (pgsr0 & QSGERR != 0),
    {
        pgsr0 & QSGERR != 0
    }

    /// Tells the number of ranks and the data width from the status words
    /// after DQS gate training: the general status register 0 of the
    /// peripheral and of its lanes 0 and 1. Returns `None` for the one
    /// combination whose meaning is not known.
    #[inline]
    pub fn dqs_gate_detect(&self, pgsr0: u32, dx0_gsr0: u32, dx1_gsr0: u32) -> (found: Option<
        Geometry,
    >)
        ensures
            found == spec_dqs_gate_detect(pgsr0, dx0_gsr0, dx1_gsr0),
    {
        let qsgerr: bool = pgsr0 & QSGERR != 0;
        if !qsgerr {
            return Some(Geometry { ranks: Ranks::Dual, width: DqWidth::X16 });
        }
        let dx0_qsgerr: u32 = (dx0_gsr0 >> 26) & 0xf;
        let dx1_qsgerr: u32 = (dx1_gsr0 >> 26) & 0xf;
        if dx0_qsgerr & 0x2 != 0 {
            if dx1_qsgerr & 0x2 != 0 {
                Some(Geometry { ranks: Ranks::Single, width: DqWidth::X16 })
            } else {
                Some(Geometry { ranks: Ranks::Single, width: DqWidth::X8 })
            }
        } else {
            if dx1_qsgerr != 0 {
                None
            } else {
                Some(Geometry { ranks: Ranks::Dual, width: DqWidth::X8 })
            }
        }
    }
}

impl<const B: usize> PHY<Static<B>> {
    /// Takes the peripheral at the address `B`. Whoever calls this answers
    /// for there being no second handle to the same peripheral.
    #[inline]
    pub fn steal_static() -> (phy: PHY<Static<B>>)
        ensures
            phy.base() == B,
    {
        PHY { base: Static::<B> }
    }
}

impl PHY<Dynamic> {
    /// Takes the peripheral at `base`. Whoever calls this answers for there
    /// being no second handle to the same peripheral.
    #[inline]
    pub fn steal_dynamic(base: usize) -> (phy: PHY<Dynamic>)
        ensures
            phy.base() == base,
    {
        PHY { base: Dynamic::new(base) }
    }
}

} // verus!
