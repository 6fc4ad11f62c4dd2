//! What the firmware keeps of a supervisor, and what it does when the
//! supervisor is through.

use vstd::prelude::*;

verus! {

/// What to do once the supervisor has returned for good.
#[derive(Clone, Copy, Debug, PartialEq, Eq, Structural)]
pub enum Operation {
    /// Stop the hart.
    Stop,
    /// Reset the system.
    SystemReset,
}

/// The registers of a supervisor while the firmware runs.
#[derive(Clone, Copy, Debug)]
pub struct SupervisorContext {
    /// Stack pointer of the firmware, to come back to.
    pub machine_sp: usize,
    /// The registers x1 to x31.
    pub x: [usize; 31],
    /// Machine status.
    pub mstatus: usize,
    /// Address the supervisor goes on at.
    pub mepc: usize,
}

} // verus!
