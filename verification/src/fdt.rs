//! Board description gathered from a flattened device tree.
//!
//! The tree is walked depth first by the `dtb-walker` crate. For every node
//! and property it meets, the walk asks [`FdtBoard::visit`] what to do next;
//! that function holds the whole traversal policy and is the only place
//! where the board description changes. Only a blob that is well formed is
//! walked; [`format`] says what that means and tests it.

pub mod clint;
pub mod format;
pub mod uart16550;

use vstd::prelude::*;
use dtb_walker::{Dtb, DtbObj, HeaderError, Property, WalkOperation};
use crate::console::{load_console_uart16550, MachineConsole};
use crate::fdt::clint::ClintHandle;
use crate::fdt::format::spec_well_formed;
use crate::fdt::sifive_test::SifiveTestHandle;
use crate::fdt::uart16550::SerialHandle;
use crate::reset::{load_reset_sifive_test, MachineReset};

verus! {

/// Number of harts the firmware keeps a stack for.
pub const NUM_HART_MAX: usize = 8;

/// First address of the memory that supervisor buffers may lie in.
pub const MEMORY_START: usize = 0x8020_0000;

/// First address behind the memory that supervisor buffers may lie in.
pub const MEMORY_END: usize = 0x9000_0000;

/// A half-open range of physical addresses.
#[derive(Clone, Copy, Debug, PartialEq, Eq, Structural)]
pub struct AddressRange {
    pub start: usize,
    pub end: usize,
}

impl AddressRange {
    /// Whether `addr` lies in the range.
    pub open spec fn spec_contains(self, addr: int) -> bool {
        self.start <= addr < self.end
    }

    /// Tests whether `addr` lies in the range.
    pub fn contains(&self, addr: usize) -> (r: bool)
        ensures
            r == self.spec_contains(addr as int),
    {
        self.start <= addr && addr < self.end
    }
}

/// What the walk tells about the tree at one step.
#[derive(Clone, Copy, Debug)]
pub enum Visited<'a> {
    /// A child node of the current node, with its name.
    SubNode { name: &'a [u8] },
    /// A `reg` property of the current node, with its first address range
    /// if it has one.
    Reg { first: Option<AddressRange> },
    /// Any other property of the current node.
    Property,
}

/// A step of the walk as a mathematical value.
pub enum Seen {
    SubNode { name: Seq<u8> },
    Reg { first: Option<AddressRange> },
    Property,
}

impl<'a> View for Visited<'a> {
    type V = Seen;

    open spec fn view(&self) -> Seen {
        match *self {
            Visited::SubNode { name } => Seen::SubNode { name: name@ },
            Visited::Reg { first } => Seen::Reg { first },
            Visited::Property => Seen::Property,
        }
    }
}

/// What the walk is to do after a step.
#[derive(Clone, Copy, Debug, PartialEq, Eq, Structural)]
pub enum WalkStep {
    /// Descend into the child node.
    StepInto,
    /// Skip the child node, or go on to the next property.
    StepOver,
    /// Leave the current node without looking at the rest of it.
    StepOut,
}

/// The peripheral class a node name stands for.
#[derive(Clone, Copy, Debug, PartialEq, Eq, Structural)]
pub enum NodeClass {
    /// `uart…` or `serial…`: a 16550 console.
    Serial,
    /// `clint…`: the timer and inter-processor interrupt controller.
    Clint,
    /// `test…`: the SiFive test device, used for reset.
    Test,
    /// Anything else.
    Unknown,
}

/// The bytes of `soc`.
pub open spec fn name_soc() -> Seq<u8> {
    seq![0x73u8, 0x6fu8, 0x63u8]
}

/// The bytes of `uart`.
pub open spec fn prefix_uart() -> Seq<u8> {
    seq![0x75u8, 0x61u8, 0x72u8, 0x74u8]
}

/// The bytes of `serial`.
pub open spec fn prefix_serial() -> Seq<u8> {
    seq![0x73u8, 0x65u8, 0x72u8, 0x69u8, 0x61u8, 0x6cu8]
}

/// The bytes of `clint`.
pub open spec fn prefix_clint() -> Seq<u8> {
    seq![0x63u8, 0x6cu8, 0x69u8, 0x6eu8, 0x74u8]
}

/// The bytes of `test`.
pub open spec fn prefix_test() -> Seq<u8> {
    seq![0x74u8, 0x65u8, 0x73u8, 0x74u8]
}

/// The class of a node, decided by the prefix of its name.
pub open spec fn spec_node_class(name: Seq<u8>) -> NodeClass {
    if prefix_uart().is_prefix_of(name) || prefix_serial().is_prefix_of(name) {
        NodeClass::Serial
    } else if prefix_clint().is_prefix_of(name) {
        NodeClass::Clint
    } else if prefix_test().is_prefix_of(name) {
        NodeClass::Test
    } else {
        NodeClass::Unknown
    }
}

/// What the walk does after a step taken `level` nodes below the root, in
/// the node named `current`.
///
/// Below the root only `soc` is entered. Inside `soc` only nodes of a known
/// class are entered. A `reg` property of a node of a known class ends the
/// visit of that node. Everything else is passed over.
pub open spec fn spec_decision(level: usize, current: Seq<u8>, seen: Seen) -> WalkStep {
    match seen {
        Seen::SubNode { name } => {
            if level == 0 {
                if name == name_soc() {
                    WalkStep::StepInto
                } else {
                    WalkStep::StepOver
                }
            } else if current == name_soc() {
                if spec_node_class(name) != NodeClass::Unknown {
                    WalkStep::StepInto
                } else {
                    WalkStep::StepOver
                }
            } else {
                WalkStep::StepOver
            }
        },
        Seen::Reg { first } => {
            if spec_node_class(current) != NodeClass::Unknown {
                WalkStep::StepOut
            } else {
                WalkStep::StepOver
            }
        },
        Seen::Property => WalkStep::StepOver,
    }
}

/// Tests whether `name` begins with `prefix`.
pub fn starts_with(name: &[u8], prefix: &[u8]) -> (r: bool)
    ensures
        r == prefix@.is_prefix_of(name@),
{
    if prefix.len() > name.len() {
        return false;
    }
    let mut i: usize = 0;
    while i < prefix.len()
        invariant
            i <= prefix.len() <= name.len(),
            forall|k: int| 0 <= k < i ==> name[k] == prefix[k],
        decreases prefix.len() - i,
    {
        if name[i] != prefix[i] {
            return false;
        }
        i += 1;
    }
    true
}

/// Tests whether `name` is exactly `soc`.
pub fn is_soc(name: &[u8]) -> (r: bool)
    ensures
        r == (name@ == name_soc()),
{
    let soc: [u8; 3] = [0x73, 0x6f, 0x63];
    let r = name.len() == 3 && starts_with(name, soc.as_slice());
    proof {
        if r {
            assert(name@ =~= name@.subrange(0, 3));
        }
    }
    r
}

/// Finds the class of a node from its name.
pub fn node_class(name: &[u8]) -> (class: NodeClass)
    ensures
        class == spec_node_class(name@),
{
    let uart: [u8; 4] = [0x75, 0x61, 0x72, 0x74];
    let serial: [u8; 6] = [0x73, 0x65, 0x72, 0x69, 0x61, 0x6c];
    let clint: [u8; 5] = [0x63, 0x6c, 0x69, 0x6e, 0x74];
    let test: [u8; 4] = [0x74, 0x65, 0x73, 0x74];
    if starts_with(name, uart.as_slice()) || starts_with(name, serial.as_slice()) {
        NodeClass::Serial
    } else if starts_with(name, clint.as_slice()) {
        NodeClass::Clint
    } else if starts_with(name, test.as_slice()) {
        NodeClass::Test
    } else {
        NodeClass::Unknown
    }
}

/// The peripherals of a board, as far as the device tree has named them.
#[derive(Clone, Copy, Debug, PartialEq, Eq, Structural)]
pub struct FdtBoard {
    pub serial: SerialHandle,
    pub clint: ClintHandle,
    pub sifive_test: SifiveTestHandle,
}

/// One step of a walk, as the board sees it.
pub struct Visit {
    pub level: usize,
    pub current: Seq<u8>,
    pub seen: Seen,
}

impl FdtBoard {
    /// The board before anything is known about it.
    pub open spec fn spec_new() -> FdtBoard {
        FdtBoard {
            serial: SerialHandle {
                uart16550: None,
                range: AddressRange { start: MEMORY_START, end: MEMORY_END },
            },
            clint: ClintHandle { clint: None, max_hart_id: (NUM_HART_MAX - 1) as usize },
            sifive_test: SifiveTestHandle { sifive_test: None },
        }
    }

    /// The board with its console at the start of `range`.
    pub open spec fn with_uart16550_serial(self, range: AddressRange) -> FdtBoard {
        FdtBoard {
            serial: SerialHandle {
                uart16550: Some(range.start),
                range: AddressRange { start: MEMORY_START, end: MEMORY_END },
            },
            ..self
        }
    }

    /// The board with its interrupt controller at the start of `range`.
    pub open spec fn with_clint(self, range: AddressRange) -> FdtBoard {
        FdtBoard {
            clint: ClintHandle { clint: Some(range.start), max_hart_id: self.clint.max_hart_id },
            ..self
        }
    }

    /// The board with its test device at the start of `range`.
    pub open spec fn with_sifive_test(self, range: AddressRange) -> FdtBoard {
        FdtBoard { sifive_test: SifiveTestHandle { sifive_test: Some(range.start) }, ..self }
    }

    /// The board after one step of the walk: a `reg` property with a first
    /// range sets the handle that the class of its node stands for; nothing
    /// else changes the board.
    pub open spec fn after(self, current: Seq<u8>, seen: Seen) -> FdtBoard {
        match seen {
            Seen::Reg { first: Some(range) } => match spec_node_class(current) {
                NodeClass::Serial => self.with_uart16550_serial(range),
                NodeClass::Clint => self.with_clint(range),
                NodeClass::Test => self.with_sifive_test(range),
                NodeClass::Unknown => self,
            },
            _ => self,
        }
    }

    /// The board after the steps of `visits`, taken in order.
    pub open spec fn after_all(self, visits: Seq<Visit>) -> FdtBoard
        decreases visits.len(),
    {
        if visits.len() == 0 {
            self
        } else {
            self.after_all(visits.drop_last()).after(visits.last().current, visits.last().seen)
        }
    }

    /// Creates the description of a board of which nothing is known yet.
    #[inline]
    pub fn new() -> (board: Self)
        ensures
            board == Self::spec_new(),
    {
        Self {
            serial: SerialHandle {
                uart16550: None,
                range: AddressRange { start: MEMORY_START, end: MEMORY_END },
            },
            clint: ClintHandle { clint: None, max_hart_id: NUM_HART_MAX - 1 },
            sifive_test: SifiveTestHandle { sifive_test: None },
        }
    }

    /// Puts the console at the start of `range`.
    #[inline]
    pub fn set_uart16550_serial(&mut self, range: AddressRange)
        ensures
            *final(self) == old(self).with_uart16550_serial(range),
    {
        self.serial = SerialHandle {
            uart16550: Some(range.start),
            range: AddressRange { start: MEMORY_START, end: MEMORY_END },
        };
    }

    /// Puts the timer and inter-processor interrupt controller at the start
    /// of `range`.
    #[inline]
    pub fn set_clint(&mut self, range: AddressRange)
        ensures
            *final(self) == old(self).with_clint(range),
    {
        self.clint.clint = Some(range.start);
    }

    /// Puts the test device at the start of `range`.
    #[inline]
    pub fn set_sifive_test(&mut self, range: AddressRange)
        ensures
            *final(self) == old(self).with_sifive_test(range),
    {
        self.sifive_test.sifive_test = Some(range.start);
    }

    /// Takes one step of the walk: `seen` was met `level` nodes below the
    /// root, in the node named `current`. Updates the board and says how
    /// the walk goes on.
    pub fn visit(&mut self, level: usize, current: &[u8], seen: &Visited<'_>) -> (step: WalkStep)
        ensures
            step == spec_decision(level, current@, seen@),
            *final(self) == old(self).after(current@, seen@),
    {
        match seen {
            Visited::SubNode { name } => {
                if level == 0 {
                    if is_soc(name) {
                        WalkStep::StepInto
                    } else {
                        WalkStep::StepOver
                    }
                } else if is_soc(current) {
                    match node_class(name) {
                        NodeClass::Unknown => WalkStep::StepOver,
                        _ => WalkStep::StepInto,
                    }
                } else {
                    WalkStep::StepOver
                }
            },
            Visited::Reg { first } => {
                match node_class(current) {
                    NodeClass::Serial => {
                        if let Some(range) = first {
                            self.set_uart16550_serial(*range);
                        }
                        WalkStep::StepOut
                    },
                    NodeClass::Clint => {
                        if let Some(range) = first {
                            self.set_clint(*range);
                        }
                        WalkStep::StepOut
                    },
                    NodeClass::Test => {
                        if let Some(range) = first {
                            self.set_sifive_test(*range);
                        }
                        WalkStep::StepOut
                    },
                    NodeClass::Unknown => WalkStep::StepOver,
                }
            },
            Visited::Property => WalkStep::StepOver,
        }
    }
}

/// What may be wrong with the header of a device tree blob.
#[verifier::external_type_specification]
#[verifier::external_body]
pub struct ExHeaderError(dtb_walker::HeaderError);

/// A fault in the header of a device tree blob, as far as this firmware
/// tells faults apart.
#[derive(Clone, Copy, Debug, PartialEq, Eq, Structural)]
pub enum HeaderFault {
    /// The blob does not start at a multiple of eight; the value is the
    /// largest power of two that its address is a multiple of.
    Misaligned(u32),
    /// The blob names a last compatible version other than 16.
    LastCompVersion(u32),
    /// Any other fault.
    Other,
}

/// Whether a blob with this fault in its header is read all the same: one
/// that is aligned to four bytes only, or one with another last compatible
/// version.
pub open spec fn spec_is_tolerated(fault: HeaderFault) -> bool {
    fault == HeaderFault::Misaligned(4) || fault is LastCompVersion
}

/// Decides whether a blob with this fault in its header is read all the
/// same.
pub fn is_tolerated(fault: HeaderFault) -> (r: bool)
    ensures
        r == spec_is_tolerated(fault),
{
    match fault {
        HeaderFault::Misaligned(by) => by == 4,
        HeaderFault::LastCompVersion(_) => true,
        HeaderFault::Other => false,
    }
}

/// The fault that a `dtb_walker::HeaderError` stands for: its variant, with
/// the number it carries where the variant is one of the two that this
/// firmware tells apart.
pub uninterp spec fn fault_of(error: HeaderError) -> HeaderFault;

/// Tells the variants of `dtb_walker::HeaderError` apart and moves the
/// number of a misalignment or of a last compatible version over. The
/// result is [`fault_of`] the error.
#[verifier::external_body]
fn header_fault(error: &HeaderError) -> (fault: HeaderFault)
    ensures
        fault == fault_of(*error),
{
    match error {
        HeaderError::Misaligned(by) => HeaderFault::Misaligned(*by),
        HeaderError::LastCompVersion(version) => HeaderFault::LastCompVersion(*version),
        _ => HeaderFault::Other,
    }
}

/// Decides whether a blob is read although `dtb_walker` reported `error`
/// of its header: only if the fault is that the blob is aligned to four
/// bytes only, or that it names another last compatible version. This is
/// the filter to hand to the crate when it takes a blob.
pub fn tolerates(error: &HeaderError) -> (r: bool)
    ensures
        r == spec_is_tolerated(fault_of(*error)),
{
    is_tolerated(header_fault(error))
}

/// What a step of a walk met, kept for the record.
#[derive(Clone, Debug, PartialEq, Eq)]
pub enum Met {
    /// A child node of the current node, with its name.
    SubNode { name: Vec<u8> },
    /// A `reg` property of the current node, with its first address range
    /// if it has one.
    Reg { first: Option<AddressRange> },
    /// Any other property of the current node.
    Property,
}

impl View for Met {
    type V = Seen;

    open spec fn view(&self) -> Seen {
        match *self {
            Met::SubNode { name } => Seen::SubNode { name: name@ },
            Met::Reg { first } => Seen::Reg { first },
            Met::Property => Seen::Property,
        }
    }
}

/// One step of a walk, kept for the record: where it was taken, what it
/// met, and how the walk went on.
#[derive(Clone, Debug, PartialEq, Eq)]
pub struct Taken {
    /// Number of nodes between the root and the current node.
    pub level: usize,
    /// Name of the current node.
    pub current: Vec<u8>,
    /// What the step met.
    pub met: Met,
    /// How the walk went on.
    pub step: WalkStep,
}

impl View for Taken {
    type V = Visit;

    open spec fn view(&self) -> Visit {
        Visit { level: self.level, current: self.current@, seen: self.met@ }
    }
}

/// The steps of a record as mathematical values.
pub open spec fn visits_of(record: Seq<Taken>) -> Seq<Visit> {
    Seq::new(record.len(), |i: int| record[i]@)
}

/// Whether every step of a record went on as the traversal policy says.
pub open spec fn steps_follow_policy(record: Seq<Taken>) -> bool {
    forall|i: int|
        0 <= i < record.len() ==> (#[trigger] record[i]).step == spec_decision(
            record[i].level,
            record[i].current@,
            record[i].met@,
        )
}

/// A board on its way through a device tree, with the record of the steps
/// taken if one is kept.
pub struct Walker {
    /// The board as far as it is known.
    pub board: FdtBoard,
    /// The steps taken so far, if a record is kept.
    pub record: Option<Vec<Taken>>,
}

impl Walker {
    /// The steps taken so far as mathematical values, if a record is kept.
    pub open spec fn recorded(self) -> Option<Seq<Visit>> {
        match self.record {
            Some(record) => Some(visits_of(record@)),
            None => None,
        }
    }

    /// Whether every step on record went on as the traversal policy says.
    pub open spec fn follows_policy(self) -> bool {
        match self.record {
            Some(record) => steps_follow_policy(record@),
            None => true,
        }
    }

    /// Takes one step of the walk, as [`FdtBoard::visit`] does, and puts it
    /// on record if a record is kept.
    pub fn observe(&mut self, level: usize, current: &[u8], seen: &Visited<'_>) -> (step: WalkStep)
        requires
            old(self).follows_policy(),
        ensures
            step == spec_decision(level, current@, seen@),
            final(self).board == old(self).board.after(current@, seen@),
            final(self).recorded() == match old(self).recorded() {
                Some(visits) => Some(visits.push(Visit { level, current: current@, seen: seen@ })),
                None => None,
            },
            final(self).follows_policy(),
    {
        let step = self.board.visit(level, current, seen);
        if let Some(record) = &mut self.record {
            let met = match seen {
                Visited::SubNode { name } => Met::SubNode { name: vstd::slice::slice_to_vec(name) },
                Visited::Reg { first } => Met::Reg { first: *first },
                Visited::Property => Met::Property,
            };
            let taken = Taken { level, current: vstd::slice::slice_to_vec(current), met, step };
            record.push(taken);
        }
        step
    }
}

/// The steps of the walk through a blob: what `dtb_walker::Dtb::walk` shows
/// of the blob, one node or property after the other, when every step is
/// answered as [`spec_decision`] says. Of a `reg` property a step holds the
/// first range, if the property has one.
pub uninterp spec fn walk_steps(blob: Seq<u8>) -> Seq<Visit>;

/// Makes a `dtb_walker::Dtb` of the blob with `Dtb::from_slice`, runs
/// `Dtb::walk` over it and lets the walker take every step of it, if the
/// blob lies at an address that is a multiple of four. Returns whether it
/// does.
///
/// The crate reads the words of the blob in place, so a blob that lies
/// elsewhere is not handed to it. The crate calls the closure once for each
/// node and property that the answers so far have not made it skip, in the
/// order of the blob, and does nothing else to the walker. Of a `reg`
/// property the closure hands on the first range that the crate's iterator
/// gives, if it gives one. The walker answers as the traversal policy says,
/// so the steps depend on the bytes of the blob alone: they are
/// [`walk_steps`]. On a blob that is well formed the crate neither refuses
/// the blob nor stops short. It goes one call deeper for every node within
/// a node.
#[verifier::external_body]
fn walk(blob: &[u8], walker: &mut Walker) -> (walked: bool)
    requires
        spec_well_formed(blob@),
        old(walker).follows_policy(),
    ensures
        walked ==> final(walker).board == old(walker).board.after_all(walk_steps(blob@)),
        walked ==> final(walker).recorded() == match old(walker).recorded() {
            Some(before) => Some(before + walk_steps(blob@)),
            None => None,
        },
        !walked ==> *final(walker) == *old(walker),
        final(walker).follows_policy(),
{
    if !blob.as_ptr().cast::<u32>().is_aligned() { return false; }
    let Ok(fdt) = Dtb::from_slice(blob) else { return false };
    fdt.walk(|path, obj| {
        let seen = match obj {
            DtbObj::SubNode { name } => Visited::SubNode { name },
            DtbObj::Property(Property::Reg(mut reg)) => Visited::Reg { first: reg.next().map(|r| AddressRange { start: r.start, end: r.end }) },
            DtbObj::Property(_) => Visited::Property,
        };
        match walker.observe(path.level(), path.last(), &seen) {
            WalkStep::StepInto => WalkOperation::StepInto,
            WalkStep::StepOver => WalkOperation::StepOver,
            WalkStep::StepOut => WalkOperation::StepOut,
        }
    });
    true
}

/// The first range of the last `reg` property among `visits` that was met
/// in a node of the class `class`, if there is one.
pub open spec fn last_range(visits: Seq<Visit>, class: NodeClass) -> Option<AddressRange>
    decreases visits.len(),
{
    if visits.len() == 0 {
        None
    } else {
        match visits.last().seen {
            Seen::Reg { first: Some(range) } if spec_node_class(visits.last().current)
                == class => Some(range),
            _ => last_range(visits.drop_last(), class),
        }
    }
}

/// What a walk leaves of a board: each handle lies at the start of the
/// first range of the last `reg` property that was met in a node of its
/// class, and is as it was if none was met. The limit of hart ids stays,
/// and the memory range of the console is at its default once a console
/// was met.
pub proof fn lemma_board_after_walk(board: FdtBoard, visits: Seq<Visit>)
    ensures
        board.after_all(visits).serial.uart16550 == match last_range(visits, NodeClass::Serial) {
            Some(range) => Some(range.start),
            None => board.serial.uart16550,
        },
        board.after_all(visits).serial.range == match last_range(visits, NodeClass::Serial) {
            Some(range) => AddressRange { start: MEMORY_START, end: MEMORY_END },
            None => board.serial.range,
        },
        board.after_all(visits).clint.clint == match last_range(visits, NodeClass::Clint) {
            Some(range) => Some(range.start),
            None => board.clint.clint,
        },
        board.after_all(visits).clint.max_hart_id == board.clint.max_hart_id,
        board.after_all(visits).sifive_test.sifive_test == match last_range(
            visits,
            NodeClass::Test,
        ) {
            Some(range) => Some(range.start),
            None => board.sifive_test.sifive_test,
        },
    decreases visits.len(),
{
    if visits.len() > 0 {
        lemma_board_after_walk(board, visits.drop_last());
    }
}

impl FdtBoard {
    /// Puts what the board has found to use: its console becomes the
    /// console of the machine, its test device the way the machine is
    /// reset. What the board has not found stays as it is.
    #[inline]
    pub fn init(&self, console: &mut MachineConsole, reset: &mut MachineReset)
        ensures
            *final(console) == match self.serial.uart16550 {
                Some(uart16550) => MachineConsole::Uart16550(uart16550),
                None => *old(console),
            },
            *final(reset) == match self.sifive_test.sifive_test {
                Some(sifive_test) => MachineReset::SifiveTest(sifive_test),
                None => *old(reset),
            },
    {
        if let Some(uart16550) = self.serial.uart16550 {
            load_console_uart16550(console, uart16550);
        }
        if let Some(sifive_test) = self.sifive_test.sifive_test {
            load_reset_sifive_test(reset, sifive_test);
        }
    }
}

/// Fills `board` from the device tree in `blob`, if the blob lies at an
/// address that is a multiple of four, and says whether it does.
///
/// The tree is walked once, depth first, and [`FdtBoard::visit`] takes
/// every step. A node of a known class without a usable `reg` property
/// leaves its handle as it was. Nothing is kept but the board. A blob that
/// lies elsewhere is not read, and the board stays as it was.
///
/// The blob has to be well formed, which [`format::well_formed`] tests.
pub fn parse_fdt(blob: &[u8], board: &mut FdtBoard) -> (walked: bool)
    requires
        spec_well_formed(blob@),
    ensures
        *final(board) == if walked {
            old(board).after_all(walk_steps(blob@))
        } else {
            *old(board)
        },
{
    let mut walker = Walker { board: *board, record: None };
    let walked = walk(blob, &mut walker);
    *board = walker.board;
    walked
}

/// Fills `board` from the device tree in `blob`, as [`parse_fdt`] does, and
/// returns the record of the walk: every node and property that was met, in
/// order, and how the walk went on from it. Returns `None` for a blob that
/// does not lie at a multiple of four.
pub fn trace_fdt(blob: &[u8], board: &mut FdtBoard) -> (walked: Option<Vec<Taken>>)
    requires
        spec_well_formed(blob@),
    ensures
        match walked {
            Some(record) => {
                &&& *final(board) == old(board).after_all(walk_steps(blob@))
                &&& visits_of(record@) == walk_steps(blob@)
                &&& steps_follow_policy(record@)
            },
            None => *final(board) == *old(board),
        },
{
    let mut walker = Walker { board: *board, record: Some(Vec::new()) };
    if walk(blob, &mut walker) {
        *board = walker.board;
        walker.record
    } else {
        None
    }
}

/// Fills `board` from the device tree in `blob` if the blob is well formed
/// and lies at an address that is a multiple of four, and says whether it
/// did. Any other blob is not walked and leaves the board as it was.
pub fn checked_parse_fdt(blob: &[u8], board: &mut FdtBoard) -> (walked: bool)
    ensures
        walked ==> spec_well_formed(blob@),
        *final(board) == if walked {
            old(board).after_all(walk_steps(blob@))
        } else {
            *old(board)
        },
{
    if format::well_formed(blob) {
        parse_fdt(blob, board)
    } else {
        false
    }
}

} // verus!
