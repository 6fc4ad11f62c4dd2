//! What the machine does when it cannot go on.

use vstd::prelude::*;

verus! {

/// The way the machine is reset.
#[derive(Clone, Copy, Debug, PartialEq, Eq, Structural)]
pub enum MachineReset {
    /// Nothing can reset the machine: loop forever.
    DeadLoop,
    /// The SiFive test device at this address.
    SifiveTest(usize),
}

/// What to do on the fatal path.
#[derive(Clone, Copy, Debug, PartialEq, Eq, Structural)]
pub enum Failure {
    /// Loop forever.
    DeadLoop,
    /// Tell the test device at this address that the run failed with this
    /// code.
    TestFail { sifive_test: usize, code: u16 },
}

impl MachineReset {
    /// The way the machine is reset before the device tree has been read.
    pub fn new() -> (reset: Self)
        ensures
            reset == MachineReset::DeadLoop,
    {
        MachineReset::DeadLoop
    }
}

/// Decides what to do on the fatal path: with a test device, report failure
/// with code 0; without one, loop forever. Neither returns.
pub fn fail(reset: &MachineReset) -> (failure: Failure)
    ensures
        failure == match *reset {
            MachineReset::DeadLoop => Failure::DeadLoop,
            MachineReset::SifiveTest(sifive_test) => Failure::TestFail { sifive_test, code: 0 },
        },
{
    match reset {
        MachineReset::DeadLoop => Failure::DeadLoop,
        MachineReset::SifiveTest(sifive_test) => Failure::TestFail {
            sifive_test: *sifive_test,
            code: 0,
        },
    }
}

/// Makes the test device at `sifive_test` the way the machine is reset.
pub fn load_reset_sifive_test(reset: &mut MachineReset, sifive_test: usize)
    ensures
        *final(reset) == MachineReset::SifiveTest(sifive_test),
{
    *reset = MachineReset::SifiveTest(sifive_test);
}

} // verus!
