//! Static and dynamic base addresses of peripherals.

use vstd::prelude::*;

verus! {

/// Types that stand for the base address of a peripheral.
pub trait BaseAddress {
    /// The address this value stands for.
    spec fn addr(&self) -> usize;

    /// Returns the address this value stands for.
    fn ptr(&self) -> (p: usize)
        ensures
            p == self.addr(),
    ;
}

/// An address known at compile time. The type has no size.
#[derive(Clone, Copy, Debug, PartialEq, Eq)]
pub struct Static<const A: usize>;

impl<const A: usize> BaseAddress for Static<A> {
    open spec fn addr(&self) -> usize {
        A
    }

    #[inline(always)]
    fn ptr(&self) -> (p: usize) {
        A
    }
}

/// An address that is only known at run time.
#[derive(Clone, Copy, Debug, PartialEq, Eq, Structural)]
pub struct Dynamic {
    base: usize,
}

impl Dynamic {
    /// The address that was stored.
    pub closed spec fn base(&self) -> usize {
        self.base
    }

    /// Creates a base address from a value found at run time.
    #[inline]
    pub fn new(base: usize) -> (d: Self)
        ensures
            d.base() == base,
            d.addr() == base,
    {
        Dynamic { base }
    }
}

/// A dynamic base address is its address and nothing else: two of them are
/// the same value exactly when they hold the same address.
pub proof fn lemma_dynamic_is_its_base(one: Dynamic, other: Dynamic)
    ensures
        one == other <==> one.base() == other.base(),
        one.addr() == one.base(),
{
}

impl BaseAddress for Dynamic {
    closed spec fn addr(&self) -> usize {
        self.base
    }

    #[inline(always)]
    fn ptr(&self) -> (p: usize) {
        self.base
    }
}

} // verus!
