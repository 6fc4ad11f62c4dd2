//! Timer and inter-processor interrupts of a board: a SiFive CLINT found in
//! the device tree.

use vstd::prelude::*;
use rustsbi::HartMask;

verus! {

/// The CLINT of a board, if it has one, and the highest hart it serves.
#[derive(Clone, Copy, Debug, PartialEq, Eq, Structural)]
pub struct ClintHandle {
    /// Base address of the CLINT.
    pub clint: Option<usize>,
    /// Highest hart id that an interrupt may be sent to.
    pub max_hart_id: usize,
}

/// Whether the hart mask made of `mask` and `base` selects the hart
/// `hart_id`: a base of all ones selects every hart; otherwise bit `k` of
/// the mask selects the hart `base + k`.
pub open spec fn spec_has_bit(mask: usize, base: usize, hart_id: usize) -> bool {
    if base == usize::MAX {
        true
    } else if hart_id < base || hart_id - base >= usize::BITS {
        false
    } else {
        mask & (1usize << ((hart_id - base) as usize)) != 0
    }
}

/// Asks `rustsbi::HartMask::has_bit` whether the hart mask made of `mask`
/// and `base` selects `hart_id`. The contract restates what that function
/// computes.
#[verifier::external_body]
fn has_bit(mask: usize, base: usize, hart_id: usize) -> (selected: bool)
    ensures
        selected == spec_has_bit(mask, base, hart_id),
{
    HartMask::from_mask_base(mask, base).has_bit(hart_id)
}

/// What is to be done with a request to send an interrupt to other harts.
#[derive(Debug, PartialEq, Eq)]
pub enum IpiRequest {
    /// Set the software interrupt of these harts in the CLINT at this
    /// address; the request succeeds.
    Proceed { clint: usize, harts: Vec<usize> },
    /// The request fails: the board has no CLINT.
    NotSupported,
}

impl ClintHandle {
    /// The harts up to `limit` that the hart mask selects, in rising order.
    pub open spec fn selected(mask: usize, base: usize, limit: int) -> Seq<usize>
        decreases limit,
    {
        if limit <= 0 {
            Seq::empty()
        } else if spec_has_bit(mask, base, (limit - 1) as usize) {
            Self::selected(mask, base, limit - 1).push((limit - 1) as usize)
        } else {
            Self::selected(mask, base, limit - 1)
        }
    }

    /// The CLINT to program the timer of, if the board has one. Without one
    /// a request to set the timer is dropped.
    pub fn set_timer(&self) -> (clint: Option<usize>)
        ensures
            clint == self.clint,
    {
        self.clint
    }

    /// Decides on a request to send an interrupt to the harts that the hart
    /// mask made of `mask` and `base` selects. Harts above the highest hart
    /// of the board are left out.
    pub fn send_ipi(&self, mask: usize, base: usize) -> (request: IpiRequest)
        ensures
            match self.clint {
                Some(clint) => request matches IpiRequest::Proceed { clint: to, harts } && to
                    == clint && harts@ == Self::selected(mask, base, self.max_hart_id + 1),
                None => request is NotSupported,
            },
    {
        match self.clint {
            Some(clint) => {
                let mut harts: Vec<usize> = Vec::new();
                let mut hart_id: usize = 0;
                loop
                    invariant_except_break
                        hart_id <= self.max_hart_id,
                        harts@ == Self::selected(mask, base, hart_id as int),
                    ensures
                        harts@ == Self::selected(mask, base, self.max_hart_id + 1),
                    decreases self.max_hart_id - hart_id,
                {
                    if has_bit(mask, base, hart_id) {
                        harts.push(hart_id);
                    }
                    if hart_id == self.max_hart_id {
                        break ;
                    }
                    hart_id += 1;
                }
                IpiRequest::Proceed { clint, harts }
            },
            None => IpiRequest::NotSupported,
        }
    }
}

} // verus!
