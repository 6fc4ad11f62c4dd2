//! Units of time and frequency.

use vstd::prelude::*;

verus! {

/// Bits per second.
#[derive(Clone, Copy, Debug, PartialEq, Eq, Structural)]
pub struct Bps(pub u32);

/// Hertz.
#[derive(Clone, Copy, Debug, PartialEq, Eq, Structural)]
pub struct Hz(pub u32);

/// Convenience constructors on plain numbers.
pub trait U32Ext {
    /// The number this value holds.
    spec fn number(self) -> u32;

    /// Wraps the number in `Bps`.
    fn bps(self) -> (r: Bps)
        ensures
            r == Bps(self.number()),
    ;

    /// Wraps the number in `Hz`.
    fn hz(self) -> (r: Hz)
        ensures
            r == Hz(self.number()),
    ;
}

impl U32Ext for u32 {
    open spec fn number(self) -> u32 {
        self
    }

    #[inline(always)]
    fn bps(self) -> (r: Bps) {
        Bps(self)
    }

    #[inline(always)]
    fn hz(self) -> (r: Hz) {
        Hz(self)
    }
}

} // verus!
