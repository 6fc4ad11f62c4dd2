//! Boot synchronisation of the harts.
//!
//! Every hart enters the firmware at the same place. A lock lets exactly
//! one of them, the leader, bring the machine up, while the others wait.
//! Behind the lock one hart claims the handoff slot, reads and checks the
//! dynamic information, and publishes it; every hart then takes the address
//! of the next stage from the published record.
//!
//! A hart is a state machine: its state is what it does next, and the
//! outcome of doing it decides the state after. The lock and the slot are
//! the only memory the harts share. Their behaviour under one access at a
//! time is modelled here as well, so that whole runs of a machine with any
//! number of harts can be stated, proved and tried.

use vstd::prelude::*;
use crate::dynamic::DynamicInfo;

verus! {

/// Value of the boot lock before any hart has entered.
pub const UNINITIALIZED: usize = 0;

/// Value of the boot lock while the leader brings the machine up.
pub const EARLY_BOOTING: usize = 1;

/// Value of the boot lock once the machine is up.
pub const FINISHED: usize = 2;

/// State of the boot lock.
#[derive(Clone, Copy, Debug, PartialEq, Eq, Structural)]
pub enum BootState {
    /// No hart has entered yet.
    Uninitialized,
    /// The leader brings the machine up.
    EarlyBooting,
    /// The machine is up.
    Finished,
}

impl BootState {
    /// The value that stands for this state in memory.
    pub open spec fn spec_raw(self) -> usize {
        match self {
            BootState::Uninitialized => UNINITIALIZED,
            BootState::EarlyBooting => EARLY_BOOTING,
            BootState::Finished => FINISHED,
        }
    }

    /// Returns the value that stands for this state in memory.
    pub fn raw(self) -> (value: usize)
        ensures
            value == self.spec_raw(),
    {
        match self {
            BootState::Uninitialized => UNINITIALIZED,
            BootState::EarlyBooting => EARLY_BOOTING,
            BootState::Finished => FINISHED,
        }
    }
}

/// State of the handoff slot. It is claimed once and written once.
#[derive(Clone, Copy, Debug, PartialEq, Eq, Structural)]
pub enum Handoff {
    /// No hart has claimed the slot.
    Free,
    /// A hart has claimed the slot and has not published yet.
    Claimed,
    /// The record has been published.
    Published(DynamicInfo),
}

/// What a hart does next.
#[derive(Clone, Copy, Debug, PartialEq, Eq, Structural)]
pub enum Pending {
    /// Exchange the boot lock from uninitialised to early booting, if it is
    /// uninitialised.
    CompareExchange,
    /// Bring the machine up: console, hardware description, board.
    BringUp,
    /// Store the finished state in the boot lock.
    StoreFinished,
    /// Load the boot lock, after a pause.
    AwaitFinished,
    /// Try to claim the handoff slot.
    TryLock,
    /// Read the dynamic information from where the previous stage left it.
    ReadInfo,
    /// Publish the record in the handoff slot.
    Publish(DynamicInfo),
    /// Look into the handoff slot, after a pause.
    Poll,
    /// Jump to the address of the next stage.
    Done(usize),
    /// Give up: reset the machine, never return.
    Fatal,
}

impl Pending {
    /// Whether a hart that does this next has passed the boot lock.
    pub open spec fn past_lock(self) -> bool {
        self is TryLock || self is ReadInfo || self is Publish || self is Poll || self is Done
            || self is Fatal
    }

    /// Whether a hart that does this next has claimed the handoff slot and
    /// has not published.
    pub open spec fn holds_slot(self) -> bool {
        self is ReadInfo || self is Publish || self is Fatal
    }

    /// How far a hart that does this next has come. No step takes a hart
    /// back.
    pub open spec fn stage(self) -> nat {
        match self {
            Pending::CompareExchange => 0,
            Pending::BringUp => 1,
            Pending::AwaitFinished => 1,
            Pending::StoreFinished => 2,
            Pending::TryLock => 3,
            Pending::ReadInfo => 4,
            Pending::Publish(_) => 5,
            Pending::Poll => 6,
            Pending::Done(_) => 7,
            Pending::Fatal => 7,
        }
    }
}

/// The outcome of what a hart did.
#[derive(Clone, Copy, Debug, PartialEq, Eq, Structural)]
pub enum Response {
    /// The value that the exchange found in the boot lock.
    Exchanged(usize),
    /// The value loaded from the boot lock.
    Loaded(usize),
    /// Whether the handoff slot was claimed.
    Locked(bool),
    /// The dynamic information that was read, if it could be read.
    Info(Option<DynamicInfo>),
    /// The record found in the handoff slot, if one has been published.
    Polled(Option<DynamicInfo>),
    /// The step is done and has nothing to tell.
    Completed,
}

/// One hart on its way through the boot.
#[derive(Clone, Copy, Debug, PartialEq, Eq, Structural)]
pub struct Hart {
    /// What the hart does next.
    pub pending: Pending,
    /// Whether the hart found the boot lock uninitialised.
    pub leader: bool,
}

impl Hart {
    /// A hart that has just entered the firmware.
    pub open spec fn spec_new() -> Hart {
        Hart { pending: Pending::CompareExchange, leader: false }
    }

    /// The hart after it did what was pending and got `response`.
    ///
    /// The hart that finds the boot lock uninitialised leads; every other hart
    /// waits until it loads the finished state. The hart that claims the
    /// slot publishes what it read if that carries the expected magic
    /// value, and gives up otherwise. Every hart polls the slot until it
    /// finds a record, and jumps to the address in it. A response that does
    /// not answer what was pending changes nothing.
    pub open spec fn spec_next(self, response: Response, expected_magic: usize) -> Hart {
        match (self.pending, response) {
            (Pending::CompareExchange, Response::Exchanged(found)) => if found == UNINITIALIZED {
                Hart { pending: Pending::BringUp, leader: true }
            } else {
                Hart { pending: Pending::AwaitFinished, leader: false }
            },
            (Pending::BringUp, Response::Completed) => Hart {
                pending: Pending::StoreFinished,
                ..self
            },
            (Pending::StoreFinished, Response::Completed) => Hart {
                pending: Pending::TryLock,
                ..self
            },
            (Pending::AwaitFinished, Response::Loaded(found)) => if found == FINISHED {
                Hart { pending: Pending::TryLock, ..self }
            } else {
                self
            },
            (Pending::TryLock, Response::Locked(claimed)) => if claimed {
                Hart { pending: Pending::ReadInfo, ..self }
            } else {
                Hart { pending: Pending::Poll, ..self }
            },
            (Pending::ReadInfo, Response::Info(Some(info))) => if info.spec_is_valid(
                expected_magic,
            ) {
                Hart { pending: Pending::Publish(info), ..self }
            } else {
                Hart { pending: Pending::Fatal, ..self }
            },
            (Pending::ReadInfo, Response::Info(None)) => Hart { pending: Pending::Fatal, ..self },
            (Pending::Publish(_), Response::Completed) => Hart { pending: Pending::Poll, ..self },
            (Pending::Poll, Response::Polled(Some(info))) => Hart {
                pending: Pending::Done(info.next_addr),
                ..self
            },
            _ => self,
        }
    }

    /// Creates a hart that has just entered the firmware.
    pub fn new() -> (hart: Self)
        ensures
            hart == Self::spec_new(),
    {
        Hart { pending: Pending::CompareExchange, leader: false }
    }

    /// Moves the hart on: it did what was pending and got `response`.
    pub fn next(&mut self, response: Response, expected_magic: usize)
        ensures
            *final(self) == old(self).spec_next(response, expected_magic),
    {
        match (self.pending, response) {
            (Pending::CompareExchange, Response::Exchanged(found)) => {
                if found == UNINITIALIZED {
                    self.pending = Pending::BringUp;
                    self.leader = true;
                } else {
                    self.pending = Pending::AwaitFinished;
                    self.leader = false;
                }
            },
            (Pending::BringUp, Response::Completed) => {
                self.pending = Pending::StoreFinished;
            },
            (Pending::StoreFinished, Response::Completed) => {
                self.pending = Pending::TryLock;
            },
            (Pending::AwaitFinished, Response::Loaded(found)) => {
                if found == FINISHED {
                    self.pending = Pending::TryLock;
                }
            },
            (Pending::TryLock, Response::Locked(claimed)) => {
                if claimed {
                    self.pending = Pending::ReadInfo;
                } else {
                    self.pending = Pending::Poll;
                }
            },
            (Pending::ReadInfo, Response::Info(Some(info))) => {
                if info.is_valid(expected_magic) {
                    self.pending = Pending::Publish(info);
                } else {
                    self.pending = Pending::Fatal;
                }
            },
            (Pending::ReadInfo, Response::Info(None)) => {
                self.pending = Pending::Fatal;
            },
            (Pending::Publish(_), Response::Completed) => {
                self.pending = Pending::Poll;
            },
            (Pending::Poll, Response::Polled(Some(info))) => {
                self.pending = Pending::Done(info.next_addr);
            },
            _ => {},
        }
    }
}

/// The memory that the harts share: the boot lock and the handoff slot.
#[derive(Clone, Copy, Debug, PartialEq, Eq, Structural)]
pub struct Shared {
    /// The boot lock.
    pub boot: BootState,
    /// The handoff slot.
    pub handoff: Handoff,
}

impl Shared {
    /// The shared memory before any hart has entered.
    pub open spec fn spec_new() -> Shared {
        Shared { boot: BootState::Uninitialized, handoff: Handoff::Free }
    }

    /// The shared memory after a hart did `pending` to it, as one
    /// indivisible access. Only four things change it: the exchange that
    /// finds the boot lock uninitialised, the store of the finished state, the
    /// claim of a free slot, and the publication.
    pub open spec fn after(self, pending: Pending) -> Shared {
        match pending {
            Pending::CompareExchange => if self.boot == BootState::Uninitialized {
                Shared { boot: BootState::EarlyBooting, ..self }
            } else {
                self
            },
            Pending::StoreFinished => Shared { boot: BootState::Finished, ..self },
            Pending::TryLock => if self.handoff == Handoff::Free {
                Shared { handoff: Handoff::Claimed, ..self }
            } else {
                self
            },
            Pending::Publish(info) => Shared { handoff: Handoff::Published(info), ..self },
            _ => self,
        }
    }

    /// What a hart learns when it does `pending` to the shared memory.
    /// Reading the dynamic information is not an access to shared memory:
    /// what it yields is `read`.
    pub open spec fn response(self, pending: Pending, read: Option<DynamicInfo>) -> Response {
        match pending {
            Pending::CompareExchange => Response::Exchanged(self.boot.spec_raw()),
            Pending::AwaitFinished => Response::Loaded(self.boot.spec_raw()),
            Pending::TryLock => Response::Locked(self.handoff == Handoff::Free),
            Pending::ReadInfo => Response::Info(read),
            Pending::Poll => Response::Polled(
                match self.handoff {
                    Handoff::Published(info) => Some(info),
                    _ => None,
                },
            ),
            _ => Response::Completed,
        }
    }

    /// Creates the shared memory as it is before any hart has entered.
    pub fn new() -> (shared: Self)
        ensures
            shared == Self::spec_new(),
    {
        Shared { boot: BootState::Uninitialized, handoff: Handoff::Free }
    }

    /// Does `pending` to the shared memory as one indivisible access, and
    /// returns what the hart learns from it.
    pub fn perform(&mut self, pending: Pending, read: Option<DynamicInfo>) -> (response: Response)
        ensures
            *final(self) == old(self).after(pending),
            response == old(self).response(pending, read),
    {
        match pending {
            Pending::CompareExchange => {
                let found = self.boot.raw();
                if self.boot == BootState::Uninitialized {
                    self.boot = BootState::EarlyBooting;
                }
                Response::Exchanged(found)
            },
            Pending::StoreFinished => {
                self.boot = BootState::Finished;
                Response::Completed
            },
            Pending::AwaitFinished => Response::Loaded(self.boot.raw()),
            Pending::TryLock => {
                if self.handoff == Handoff::Free {
                    self.handoff = Handoff::Claimed;
                    Response::Locked(true)
                } else {
                    Response::Locked(false)
                }
            },
            Pending::ReadInfo => Response::Info(read),
            Pending::Publish(info) => {
                self.handoff = Handoff::Published(info);
                Response::Completed
            },
            Pending::Poll => match self.handoff {
                Handoff::Published(info) => Response::Polled(Some(info)),
                _ => Response::Polled(None),
            },
            _ => Response::Completed,
        }
    }
}

/// A machine in the middle of its boot, as a mathematical value.
pub struct Machine {
    /// The memory that the harts share.
    pub shared: Shared,
    /// The harts.
    pub harts: Seq<Hart>,
    /// The magic value that the dynamic information has to carry.
    pub expected_magic: usize,
}

impl Machine {
    /// A machine of `harts` harts before any of them has done anything.
    pub open spec fn start(harts: nat, expected_magic: usize) -> Machine {
        Machine {
            shared: Shared::spec_new(),
            harts: Seq::new(harts, |i: int| Hart::spec_new()),
            expected_magic,
        }
    }

    /// The machine after hart `i` did what it had pending. If the hart
    /// reads the dynamic information in this step, `read` is what it finds.
    pub open spec fn step(self, i: int, read: Option<DynamicInfo>) -> Machine {
        let hart = self.harts[i];
        Machine {
            shared: self.shared.after(hart.pending),
            harts: self.harts.update(
                i,
                hart.spec_next(self.shared.response(hart.pending, read), self.expected_magic),
            ),
            expected_magic: self.expected_magic,
        }
    }

    /// The machine after the steps of `schedule`, each naming the hart that
    /// moves and what it would read. A step that names no hart of the
    /// machine changes nothing.
    pub open spec fn run(self, schedule: Seq<(int, Option<DynamicInfo>)>) -> Machine
        decreases schedule.len(),
    {
        if schedule.len() == 0 {
            self
        } else {
            let before = self.run(schedule.drop_last());
            let (i, read) = schedule.last();
            if 0 <= i < before.harts.len() {
                before.step(i, read)
            } else {
                before
            }
        }
    }

    /// What holds of the boot lock in every state a machine can reach: no hart
    /// leads before the boot lock is entered, one hart leads after, only the
    /// leader brings the machine up, and no hart is past the boot lock before
    /// the finished state is stored.
    pub open spec fn lock_sound(self) -> bool {
        &&& forall|i: int, j: int|
            0 <= i < self.harts.len() && 0 <= j < self.harts.len() && self.harts[i].leader
                && self.harts[j].leader ==> i == j
        &&& self.shared.boot == BootState::Uninitialized ==> forall|i: int|
            0 <= i < self.harts.len() ==> self.harts[i] == Hart::spec_new()
        &&& self.shared.boot != BootState::Uninitialized ==> exists|i: int|
            0 <= i < self.harts.len() && self.harts[i].leader
        &&& forall|i: int|
            0 <= i < self.harts.len() ==> {
                let hart = #[trigger] self.harts[i];
                &&& hart.leader ==> !(hart.pending is CompareExchange) && !(hart.pending
                    is AwaitFinished)
                &&& !hart.leader ==> !(hart.pending is BringUp) && !(hart.pending
                    is StoreFinished)
                &&& (hart.pending is BringUp || hart.pending is StoreFinished) ==> self.shared.boot
                    == BootState::EarlyBooting
                &&& hart.pending.past_lock() ==> self.shared.boot == BootState::Finished
            }
    }

    /// What holds of the handoff slot in every state a machine can reach:
    /// at most one hart holds the slot, a record is published only with the
    /// expected magic value, and a hart jumps only to the address in the
    /// published record.
    pub open spec fn handoff_sound(self) -> bool {
        &&& forall|i: int, j: int|
            0 <= i < self.harts.len() && 0 <= j < self.harts.len()
                && self.harts[i].pending.holds_slot() && self.harts[j].pending.holds_slot() ==> i
                == j
        &&& forall|i: int|
            0 <= i < self.harts.len() ==> {
                let pending = (#[trigger] self.harts[i]).pending;
                &&& pending.holds_slot() ==> self.shared.handoff == Handoff::Claimed
                &&& pending matches Pending::Publish(info) ==> info.spec_is_valid(
                    self.expected_magic,
                )
                &&& pending matches Pending::Done(addr) ==> self.shared.handoff
                    matches Handoff::Published(info) && addr == info.next_addr
                &&& pending is Poll ==> self.shared.handoff != Handoff::Free
            }
        &&& self.shared.handoff == Handoff::Claimed ==> exists|i: int|
            0 <= i < self.harts.len() && self.harts[i].pending.holds_slot()
        &&& self.shared.handoff matches Handoff::Published(info) ==> info.spec_is_valid(
            self.expected_magic,
        )
    }

    /// What holds in every state a machine can reach.
    pub open spec fn sound(self) -> bool {
        self.lock_sound() && self.handoff_sound()
    }

    /// Whether the next step of hart `i` brings it further, whatever it
    /// reads.
    pub open spec fn can_move(self, i: int) -> bool {
        &&& 0 <= i < self.harts.len()
        &&& forall|read: Option<DynamicInfo>|
            (#[trigger] self.step(i, read)).harts[i].pending.stage()
                > self.harts[i].pending.stage()
    }
}

/// A machine is sound before any hart has done anything.
pub proof fn lemma_start_sound(harts: nat, expected_magic: usize)
    ensures
        Machine::start(harts, expected_magic).sound(),
{
}

/// A step of any hart keeps a sound machine sound, whatever the hart reads.
pub proof fn lemma_step_sound(machine: Machine, i: int, read: Option<DynamicInfo>)
    requires
        machine.sound(),
        0 <= i < machine.harts.len(),
    ensures
        machine.step(i, read).sound(),
        machine.step(i, read).harts.len() == machine.harts.len(),
{
    let after = machine.step(i, read);
    if machine.shared.boot != BootState::Uninitialized {
        let l = choose|l: int| 0 <= l < machine.harts.len() && machine.harts[l].leader;
        assert(after.harts[l].leader);
    }
    if after.shared.handoff == Handoff::Claimed {
        if machine.shared.handoff == Handoff::Claimed {
            let c = choose|c: int|
                0 <= c < machine.harts.len() && machine.harts[c].pending.holds_slot();
            assert(after.harts[c].pending.holds_slot());
        } else {
            assert(after.harts[i].pending.holds_slot());
        }
    }
}

/// Every state that a machine reaches from its start is sound, whatever the
/// order in which the harts move and whatever they read.
pub proof fn lemma_run_sound(
    harts: nat,
    expected_magic: usize,
    schedule: Seq<(int, Option<DynamicInfo>)>,
)
    ensures
        Machine::start(harts, expected_magic).run(schedule).sound(),
        Machine::start(harts, expected_magic).run(schedule).harts.len() == harts,
        Machine::start(harts, expected_magic).run(schedule).expected_magic == expected_magic,
    decreases schedule.len(),
{
    if schedule.len() == 0 {
        lemma_start_sound(harts, expected_magic);
    } else {
        lemma_run_sound(harts, expected_magic, schedule.drop_last());
        let before = Machine::start(harts, expected_magic).run(schedule.drop_last());
        let (i, read) = schedule.last();
        if 0 <= i < before.harts.len() {
            lemma_step_sound(before, i, read);
        }
    }
}

/// Exactly one hart leads: no two harts of a machine ever both found the
/// boot lock uninitialised, and as soon as the boot lock has been entered one hart
/// did.
pub proof fn lemma_one_leader(
    harts: nat,
    expected_magic: usize,
    schedule: Seq<(int, Option<DynamicInfo>)>,
)
    ensures
        ({
            let machine = Machine::start(harts, expected_magic).run(schedule);
            &&& forall|i: int, j: int|
                0 <= i < harts && 0 <= j < harts && machine.harts[i].leader
                    && machine.harts[j].leader ==> i == j
            &&& machine.shared.boot != BootState::Uninitialized ==> exists|i: int|
                0 <= i < harts && machine.harts[i].leader
        }),
{
    lemma_run_sound(harts, expected_magic, schedule);
}

/// No hart is given an address to jump to before the finished state is
/// stored in the boot lock, and the address it is given is the one of the
/// published record, which carries the expected magic value.
pub proof fn lemma_jump_is_published(
    harts: nat,
    expected_magic: usize,
    schedule: Seq<(int, Option<DynamicInfo>)>,
    i: int,
)
    requires
        0 <= i < harts,
        Machine::start(harts, expected_magic).run(schedule).harts[i].pending is Done,
    ensures
        ({
            let machine = Machine::start(harts, expected_magic).run(schedule);
            &&& machine.shared.boot == BootState::Finished
            &&& machine.shared.handoff matches Handoff::Published(info)
            &&& info.magic == expected_magic
            &&& machine.harts[i].pending == Pending::Done(info.next_addr)
        }),
{
    lemma_run_sound(harts, expected_magic, schedule);
}

/// Once the finished state is stored it stays, and a hart that waits at the
/// lock passes it with its next step.
pub proof fn lemma_finished_lets_through(machine: Machine, i: int, read: Option<DynamicInfo>)
    requires
        machine.sound(),
        0 <= i < machine.harts.len(),
        machine.shared.boot == BootState::Finished,
    ensures
        machine.step(i, read).shared.boot == BootState::Finished,
        machine.harts[i].pending is AwaitFinished ==> machine.step(i, read).harts[i].pending
            is TryLock,
{
}

/// Once a record is published it stays, and a hart that polls the slot is
/// given the address in the record with its next step.
pub proof fn lemma_published_is_taken(
    machine: Machine,
    i: int,
    read: Option<DynamicInfo>,
    info: DynamicInfo,
)
    requires
        machine.sound(),
        0 <= i < machine.harts.len(),
        machine.shared.handoff == Handoff::Published(info),
    ensures
        machine.step(i, read).shared.handoff == Handoff::Published(info),
        machine.harts[i].pending is Poll ==> machine.step(i, read).harts[i].pending
            == Pending::Done(info.next_addr),
{
}

/// A hart that reads dynamic information without the expected magic value,
/// or cannot read it, gives up.
pub proof fn lemma_bad_magic_is_fatal(machine: Machine, i: int, read: Option<DynamicInfo>)
    requires
        0 <= i < machine.harts.len(),
        machine.harts[i].pending is ReadInfo,
        read matches Some(info) ==> info.magic != machine.expected_magic,
    ensures
        machine.step(i, read).harts[i].pending is Fatal,
{
}

/// After a hart has given up, no hart of the machine is ever given an
/// address to jump to.
pub proof fn lemma_fatal_gives_no_address(
    machine: Machine,
    i: int,
    schedule: Seq<(int, Option<DynamicInfo>)>,
)
    requires
        machine.sound(),
        0 <= i < machine.harts.len(),
        machine.harts[i].pending is Fatal,
    ensures
        machine.run(schedule).sound(),
        machine.run(schedule).harts.len() == machine.harts.len(),
        machine.run(schedule).harts[i].pending is Fatal,
        forall|j: int|
            0 <= j < machine.harts.len() ==> !((#[trigger] machine.run(schedule).harts[j]).pending
                is Done),
    decreases schedule.len(),
{
    if schedule.len() > 0 {
        lemma_fatal_gives_no_address(machine, i, schedule.drop_last());
        let before = machine.run(schedule.drop_last());
        let (k, read) = schedule.last();
        if 0 <= k < before.harts.len() {
            lemma_step_sound(before, k, read);
        }
    }
}

/// No step takes any hart back: the hart that moves stays where it is or
/// comes further, and the others stay where they are.
pub proof fn lemma_step_never_goes_back(machine: Machine, i: int, read: Option<DynamicInfo>)
    requires
        0 <= i < machine.harts.len(),
    ensures
        machine.step(i, read).harts.len() == machine.harts.len(),
        forall|k: int|
            0 <= k < machine.harts.len() ==> (#[trigger] machine.step(
                i,
                read,
            ).harts[k]).pending.stage() >= machine.harts[k].pending.stage(),
{
}

/// A boot never gets stuck before its end: as long as no hart has given up
/// and some hart has not been given its address, there is a hart whose next
/// step brings it further, whatever it reads. Together with
/// [`lemma_step_never_goes_back`] this is why every hart is given its
/// address in the end, if only every hart keeps moving and none gives up.
pub proof fn lemma_some_hart_can_move(machine: Machine, waiting: int)
    requires
        machine.sound(),
        0 <= waiting < machine.harts.len(),
        !(machine.harts[waiting].pending is Done),
        forall|k: int|
            0 <= k < machine.harts.len() ==> !((#[trigger] machine.harts[k]).pending is Fatal),
    ensures
        exists|i: int| #[trigger] machine.can_move(i),
{
    let hart = machine.harts[waiting];
    if hart.pending is AwaitFinished && machine.shared.boot != BootState::Finished {
        let l = choose|l: int| 0 <= l < machine.harts.len() && machine.harts[l].leader;
        assert(machine.can_move(l));
    } else if hart.pending is Poll && !(machine.shared.handoff is Published) {
        let c = choose|c: int|
            0 <= c < machine.harts.len() && machine.harts[c].pending.holds_slot();
        assert(machine.can_move(c));
    } else {
        assert(machine.can_move(waiting));
    }
}

/// A machine of several harts whose shared memory is the model of this
/// module. Each call of [`Simulation::step`] lets one hart move.
pub struct Simulation {
    shared: Shared,
    harts: Vec<Hart>,
    expected_magic: usize,
}

impl View for Simulation {
    type V = Machine;

    closed spec fn view(&self) -> Machine {
        Machine { shared: self.shared, harts: self.harts@, expected_magic: self.expected_magic }
    }
}

impl Simulation {
    /// Creates a machine of `harts` harts that have all just entered.
    pub fn new(harts: usize, expected_magic: usize) -> (sim: Self)
        ensures
            sim@ == Machine::start(harts as nat, expected_magic),
    {
        let mut all: Vec<Hart> = Vec::new();
        let mut i: usize = 0;
        while i < harts
            invariant
                i <= harts,
                all@.len() == i,
                forall|k: int| 0 <= k < i ==> all@[k] == Hart::spec_new(),
            decreases harts - i,
        {
            all.push(Hart::new());
            i += 1;
        }
        proof {
            assert(all@ =~= Seq::new(harts as nat, |i: int| Hart::spec_new()));
        }
        Simulation { shared: Shared::new(), harts: all, expected_magic }
    }

    /// Number of harts of the machine.
    pub fn len(&self) -> (n: usize)
        ensures
            n == self@.harts.len(),
    {
        self.harts.len()
    }

    /// The state of hart `i`.
    pub fn hart(&self, i: usize) -> (hart: Hart)
        requires
            i < self@.harts.len(),
        ensures
            hart == self@.harts[i as int],
    {
        self.harts[i]
    }

    /// The state of the shared memory.
    pub fn shared(&self) -> (shared: Shared)
        ensures
            shared == self@.shared,
    {
        self.shared
    }

    /// Lets hart `i` do what it has pending. If it reads the dynamic
    /// information in this step, `read` is what it finds.
    pub fn step(&mut self, i: usize, read: Option<DynamicInfo>)
        requires
            i < old(self)@.harts.len(),
        ensures
            final(self)@ == old(self)@.step(i as int, read),
    {
        let mut hart = self.harts[i];
        let response = self.shared.perform(hart.pending, read);
        hart.next(response, self.expected_magic);
        self.harts.set(i, hart);
    }
}

} // verus!
