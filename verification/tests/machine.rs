use dtb_walker::HeaderError;
use rustsbi_proto::board::Board;
use rustsbi_proto::console::{load_console_uart16550, MachineConsole};
use rustsbi_proto::fdt::clint::{ClintHandle, IpiRequest};
use rustsbi_proto::fdt::sifive_test::{ResetRequest, SifiveTestHandle};
use rustsbi_proto::fdt::uart16550::{ConsoleRequest, SerialHandle};
use rustsbi_proto::fdt::format::{well_formed, word};
use rustsbi_proto::fdt::{
    checked_parse_fdt, is_soc, is_tolerated, node_class, parse_fdt, starts_with, tolerates,
    trace_fdt, AddressRange, FdtBoard, HeaderFault, Met, NodeClass, Taken, Visited, WalkStep,
    Walker,
};
use rustsbi_proto::opaque::is_fdt_blob;
use rustsbi_proto::reset::{fail, load_reset_sifive_test, Failure, MachineReset};
use rustsbi_proto::supervisor::{Operation, SupervisorContext};

const MEMORY: AddressRange = AddressRange { start: 0x8020_0000, end: 0x9000_0000 };

/// Builds the structure block and the strings block of a device tree.
struct Blob {
    structure: Vec<u8>,
    strings: Vec<u8>,
}

impl Blob {
    fn new() -> Self {
        let mut blob = Blob { structure: Vec::new(), strings: Vec::new() };
        blob.begin("");
        blob
    }

    fn word(&mut self, value: u32) {
        self.structure.extend_from_slice(&value.to_be_bytes());
    }

    fn padded(&mut self, bytes: &[u8]) {
        self.structure.extend_from_slice(bytes);
        while self.structure.len() % 4 != 0 {
            self.structure.push(0);
        }
    }

    fn begin(&mut self, name: &str) {
        self.word(1);
        let mut bytes = name.as_bytes().to_vec();
        bytes.push(0);
        self.padded(&bytes);
    }

    fn end(&mut self) {
        self.word(2);
    }

    fn name(&mut self, name: &str) -> u32 {
        let mut wanted = name.as_bytes().to_vec();
        wanted.push(0);
        for at in 0..self.strings.len() {
            if self.strings[at..].starts_with(&wanted) && (at == 0 || self.strings[at - 1] == 0) {
                return at as u32;
            }
        }
        let at = self.strings.len() as u32;
        self.strings.extend_from_slice(&wanted);
        at
    }

    fn prop(&mut self, name: &str, value: &[u8]) {
        let at = self.name(name);
        self.word(3);
        self.word(value.len() as u32);
        self.word(at);
        self.padded(value);
    }

    fn reg(&mut self, base: u64, size: u32) {
        let mut value = Vec::new();
        value.extend_from_slice(&base.to_be_bytes());
        value.extend_from_slice(&size.to_be_bytes());
        self.prop("reg", &value);
    }

    fn cells(&mut self, name: &str, count: u32) {
        self.prop(name, &count.to_be_bytes());
    }

    fn finish(mut self) -> Vec<u8> {
        self.end();
        self.unclosed()
    }

    fn unclosed(mut self) -> Vec<u8> {
        self.word(9);
        let off_rsvmap = 40u32;
        let off_struct = off_rsvmap + 16;
        let off_strings = off_struct + self.structure.len() as u32;
        let total = off_strings + self.strings.len() as u32;
        let header = [
            0xd00d_feed,
            total,
            off_struct,
            off_strings,
            off_rsvmap,
            17,
            16,
            0,
            self.strings.len() as u32,
            self.structure.len() as u32,
        ];
        let mut bytes = Vec::new();
        for field in header {
            bytes.extend_from_slice(&field.to_be_bytes());
        }
        bytes.extend_from_slice(&[0; 16]);
        bytes.extend_from_slice(&self.structure);
        bytes.extend_from_slice(&self.strings);
        bytes
    }
}

fn walked(bytes: &[u8]) -> FdtBoard {
    assert!(well_formed(bytes));
    let mut found = None;
    for shift in 0..4 {
        let mut board = FdtBoard::new();
        let mut room = vec![0u8; bytes.len() + 4];
        room[shift..shift + bytes.len()].copy_from_slice(bytes);
        if parse_fdt(&room[shift..shift + bytes.len()], &mut board) {
            assert!(found.is_none());
            found = Some(board);
        } else {
            assert_eq!(board, FdtBoard::new());
        }
    }
    found.unwrap()
}

fn traced(bytes: &[u8]) -> (FdtBoard, Vec<Taken>) {
    assert!(well_formed(bytes));
    let mut found = None;
    for shift in 0..4 {
        let mut board = FdtBoard::new();
        let mut room = vec![0u8; bytes.len() + 4];
        room[shift..shift + bytes.len()].copy_from_slice(bytes);
        if let Some(record) = trace_fdt(&room[shift..shift + bytes.len()], &mut board) {
            assert!(found.is_none());
            found = Some((board, record));
        } else {
            assert_eq!(board, FdtBoard::new());
        }
    }
    found.unwrap()
}

fn checked(bytes: &[u8], board: &mut FdtBoard) -> bool {
    let before = *board;
    let mut walked = 0;
    for shift in 0..4 {
        let mut tried = before;
        let mut room = vec![0u8; bytes.len() + 4];
        room[shift..shift + bytes.len()].copy_from_slice(bytes);
        if checked_parse_fdt(&room[shift..shift + bytes.len()], &mut tried) {
            walked += 1;
            *board = tried;
        } else {
            assert_eq!(tried, before);
        }
    }
    assert!(walked <= 1);
    walked == 1
}

#[test]
fn a_blob_at_an_odd_address_is_not_read() {
    let bytes = small_tree().finish();
    let mut room = vec![0u8; bytes.len() + 4];
    let mut walks = Vec::new();
    for shift in 0..4 {
        room[shift..shift + bytes.len()].copy_from_slice(&bytes);
        let blob = &room[shift..shift + bytes.len()];
        assert!(well_formed(blob));
        let mut board = FdtBoard::new();
        let walked = parse_fdt(blob, &mut board);
        if walked {
            assert_eq!(board.serial.uart16550, Some(0x1000_0000));
        } else {
            assert_eq!(board, FdtBoard::new());
        }
        let mut board = FdtBoard::new();
        assert_eq!(trace_fdt(blob, &mut board).is_some(), walked);
        let mut board = FdtBoard::new();
        assert_eq!(checked_parse_fdt(blob, &mut board), walked);
        walks.push(walked);
    }
    assert_eq!(walks.iter().filter(|walked| **walked).count(), 1);
}

fn patched(bytes: &[u8], at: usize, value: u32) -> Vec<u8> {
    let mut bytes = bytes.to_vec();
    bytes[at..at + 4].copy_from_slice(&value.to_be_bytes());
    bytes
}

fn small_tree() -> Blob {
    let mut blob = Blob::new();
    blob.begin("soc");
    blob.begin("uart0");
    blob.prop("compatible", b"ns16550a\0");
    blob.reg(0x1000_0000, 0x400);
    blob.end();
    blob.end();
    blob
}

#[test]
fn well_formed_blobs_are_taken() {
    let bytes = small_tree().finish();
    assert!(well_formed(&bytes));
    assert_eq!(word(&bytes, 0), 0xd00d_feed);
    assert_eq!(word(&bytes, 4) as usize, bytes.len());
    let mut longer = bytes.clone();
    longer.extend_from_slice(&[0xff; 7]);
    assert!(well_formed(&longer));
    let mut nops = Blob::new();
    nops.word(4);
    nops.begin("soc");
    nops.word(4);
    nops.end();
    nops.word(4);
    assert!(well_formed(&nops.finish()));
    assert!(well_formed(&Blob::new().finish()));
}

#[test]
fn headers_that_do_not_fit_are_refused() {
    let bytes = small_tree().finish();
    let total = bytes.len() as u32;
    assert!(!well_formed(&[]));
    assert!(!well_formed(&bytes[..39]));
    assert!(!well_formed(&bytes[..bytes.len() - 1]));
    assert!(!well_formed(&patched(&bytes, 4, total + 1)));
    assert!(!well_formed(&patched(&bytes, 8, 58)));
    assert!(!well_formed(&patched(&bytes, 8, total)));
    assert!(!well_formed(&patched(&bytes, 8, 0xffff_fffc)));
    assert!(!well_formed(&patched(&bytes, 36, 8)));
    assert!(!well_formed(&patched(&bytes, 36, 0)));
    assert!(!well_formed(&patched(&bytes, 36, word(&bytes, 36) + 2)));
    assert!(!well_formed(&patched(&bytes, 36, total)));
    assert!(!well_formed(&patched(&bytes, 12, total + 1)));
    assert!(!well_formed(&patched(&bytes, 32, total)));
    assert!(!well_formed(&patched(&bytes, 32, 0xffff_ffff)));
    assert!(well_formed(&patched(&bytes, 0, 0)));
    assert!(well_formed(&patched(&bytes, 20, 1)));
}

#[test]
fn broken_structures_are_refused() {
    assert!(!well_formed(&small_tree().unclosed()));
    let mut blob = small_tree();
    blob.word(5);
    assert!(!well_formed(&blob.finish()));
    let mut blob = small_tree();
    blob.word(9);
    assert!(!well_formed(&blob.finish()));
    let mut blob = small_tree();
    blob.word(1);
    blob.structure.extend_from_slice(b"name");
    assert!(!well_formed(&blob.unclosed()));
    let mut blob = small_tree();
    blob.word(3);
    assert!(!well_formed(&blob.unclosed()));
    let mut blob = small_tree();
    blob.word(3);
    blob.word(0);
    assert!(!well_formed(&blob.unclosed()));
    let mut blob = small_tree();
    let at = blob.name("status");
    blob.word(3);
    blob.word(64);
    blob.word(at);
    blob.padded(b"okay\0");
    assert!(!well_formed(&blob.finish()));
    let mut blob = small_tree();
    blob.word(3);
    blob.word(0);
    blob.word(0x1000);
    assert!(!well_formed(&blob.finish()));
    let mut blob = small_tree();
    blob.prop("status", b"okay\0");
    let mut bytes = blob.finish();
    let last = bytes.len() - 1;
    bytes[last] = b's';
    assert!(!well_formed(&bytes));
}

#[test]
fn reg_properties_follow_the_cells_of_their_parent() {
    let mut blob = Blob::new();
    blob.cells("#address-cells", 3);
    blob.cells("#size-cells", 2);
    blob.begin("pci");
    blob.prop("reg", &[0; 20]);
    blob.prop("reg", &[0; 16]);
    blob.end();
    assert!(well_formed(&blob.finish()));
    let mut blob = Blob::new();
    blob.cells("#address-cells", 0);
    blob.cells("#size-cells", 0);
    blob.begin("soc");
    blob.end();
    assert!(well_formed(&blob.finish()));
    let mut blob = Blob::new();
    blob.cells("#address-cells", 0);
    blob.cells("#size-cells", 0);
    blob.begin("soc");
    blob.prop("reg", b"");
    blob.end();
    assert!(!well_formed(&blob.finish()));
    let mut blob = Blob::new();
    blob.cells("#address-cells", 0xffff_ffff);
    blob.cells("#size-cells", 1);
    blob.begin("soc");
    blob.prop("reg", &[0; 4]);
    blob.end();
    assert!(!well_formed(&blob.finish()));
    let mut blob = Blob::new();
    blob.begin("soc");
    blob.cells("#address-cells", 0);
    blob.cells("#size-cells", 0);
    blob.reg(0x1000_0000, 0x400);
    blob.end();
    assert!(well_formed(&blob.finish()));
    let mut blob = Blob::new();
    blob.prop("#address-cells", &[0, 0, 0, 0, 0, 0, 0, 0]);
    blob.begin("soc");
    blob.reg(0x1000_0000, 0x400);
    blob.end();
    assert!(well_formed(&blob.finish()));
}

#[test]
fn ranges_that_have_no_end_are_refused() {
    let mut blob = Blob::new();
    blob.begin("cpu");
    blob.reg(0xffff_ffff_ffff_ffff, 1);
    blob.end();
    assert!(!well_formed(&blob.finish()));
    let mut blob = Blob::new();
    blob.begin("cpu");
    blob.reg(0xffff_ffff_ffff_ffff, 0);
    blob.reg(0xffff_ffff_0000_0000, 0xffff_ffff);
    blob.end();
    assert!(well_formed(&blob.finish()));
    let mut blob = Blob::new();
    blob.cells("#address-cells", 1);
    blob.cells("#size-cells", 2);
    blob.begin("soc");
    blob.prop("reg", &[0, 0, 0, 1, 0xff, 0xff, 0xff, 0xff, 0xff, 0xff, 0xff, 0xff]);
    blob.end();
    assert!(!well_formed(&blob.finish()));
}

#[test]
fn the_walk_uses_the_cells_in_force() {
    let mut blob = Blob::new();
    blob.cells("#address-cells", 1);
    blob.cells("#size-cells", 1);
    blob.begin("soc");
    blob.cells("#address-cells", 2);
    blob.cells("#size-cells", 2);
    blob.prop("reg", &[0, 0, 0x10, 0, 0, 0, 0x20, 0]);
    blob.begin("uart0");
    blob.prop("reg", &[0, 0, 0, 1, 0x10, 0, 0, 0, 0, 0, 0, 0, 0, 0, 4, 0]);
    blob.end();
    blob.begin("test");
    blob.prop("reg", &[0, 0, 0, 0, 0, 0x10, 0, 0, 0, 0, 0, 1, 0, 0, 0, 0]);
    blob.end();
    blob.end();
    let bytes = blob.finish();
    let mut board = FdtBoard::new();
    assert!(checked(&bytes, &mut board));
    assert_eq!(board.serial.uart16550, Some(0x1_1000_0000));
    assert_eq!(board.sifive_test.sifive_test, Some(0x10_0000));
}

#[test]
fn blobs_that_are_not_well_formed_leave_the_board_alone() {
    let mut board = FdtBoard::new();
    board.set_clint(AddressRange { start: 0x200_0000, end: 0x201_0000 });
    let before = board;
    assert!(!checked(&small_tree().unclosed(), &mut board));
    assert_eq!(board, before);
    assert!(!checked(&[], &mut board));
    assert_eq!(board, before);
    assert!(checked(&small_tree().finish(), &mut board));
    assert_eq!(board.serial.uart16550, Some(0x1000_0000));
    assert_eq!(board.clint.clint, Some(0x200_0000));
}

#[test]
fn walker_finds_the_console_and_passes_the_rest() {
    let mut blob = Blob::new();
    blob.prop("model", b"synthetic\0");
    blob.begin("uart-at-root");
    blob.reg(0x0bad_0000, 0x100);
    blob.end();
    blob.begin("cpu");
    blob.reg(0, 0x100);
    blob.begin("serial-in-cpu");
    blob.reg(0xdead_0000, 0x100);
    blob.end();
    blob.end();
    blob.begin("soc");
    blob.reg(0x5555_0000, 0x100);
    blob.begin("other");
    blob.reg(0x6666_0000, 0x100);
    blob.begin("uart9");
    blob.reg(0x2000_0000, 0x100);
    blob.end();
    blob.end();
    blob.begin("uart0");
    blob.prop("compatible", b"ns16550a\0");
    blob.reg(0x1000_0000, 0x400);
    blob.reg(0x3000_0000, 0x400);
    blob.begin("clint-in-uart");
    blob.reg(0x7777_0000, 0x400);
    blob.end();
    blob.end();
    blob.end();
    blob.begin("clint-behind-soc");
    blob.reg(0x8888_0000, 0x400);
    blob.end();
    let board = walked(&blob.finish());
    assert_eq!(board.serial.uart16550, Some(0x1000_0000));
    assert_eq!(board.serial.range, MEMORY);
    assert_eq!(board.clint, ClintHandle { clint: None, max_hart_id: 7 });
    assert_eq!(board.sifive_test, SifiveTestHandle { sifive_test: None });
}

#[test]
fn walker_visits_neither_cpu_nor_what_follows_the_step_out() {
    let mut blob = Blob::new();
    blob.prop("model", b"synthetic\0");
    blob.begin("uart-at-root");
    blob.reg(0x0bad_0000, 0x100);
    blob.end();
    blob.begin("cpu");
    blob.reg(0, 0x100);
    blob.begin("serial-in-cpu");
    blob.reg(0xdead_0000, 0x100);
    blob.end();
    blob.end();
    blob.begin("soc");
    blob.reg(0x5555_0000, 0x100);
    blob.begin("other");
    blob.reg(0x6666_0000, 0x100);
    blob.end();
    blob.begin("uart0");
    blob.prop("compatible", b"ns16550a\0");
    blob.reg(0x1000_0000, 0x400);
    blob.reg(0x3000_0000, 0x400);
    blob.prop("status", b"okay\0");
    blob.begin("clint-in-uart");
    blob.reg(0x7777_0000, 0x400);
    blob.end();
    blob.end();
    blob.end();
    blob.begin("clint-behind-soc");
    blob.end();
    let (board, record) = traced(&blob.finish());
    let node = |level: usize, current: &str, name: &str, step: WalkStep| Taken {
        level,
        current: current.as_bytes().to_vec(),
        met: Met::SubNode { name: name.as_bytes().to_vec() },
        step,
    };
    let reg = |level: usize, current: &str, start: usize, len: usize, step: WalkStep| Taken {
        level,
        current: current.as_bytes().to_vec(),
        met: Met::Reg { first: Some(AddressRange { start, end: start + len }) },
        step,
    };
    let prop = |level: usize, current: &str| Taken {
        level,
        current: current.as_bytes().to_vec(),
        met: Met::Property,
        step: WalkStep::StepOver,
    };
    assert_eq!(
        record,
        vec![
            prop(0, ""),
            node(0, "", "uart-at-root", WalkStep::StepOver),
            node(0, "", "cpu", WalkStep::StepOver),
            node(0, "", "soc", WalkStep::StepInto),
            reg(1, "soc", 0x5555_0000, 0x100, WalkStep::StepOver),
            node(1, "soc", "other", WalkStep::StepOver),
            node(1, "soc", "uart0", WalkStep::StepInto),
            prop(2, "uart0"),
            reg(2, "uart0", 0x1000_0000, 0x400, WalkStep::StepOut),
            node(0, "", "clint-behind-soc", WalkStep::StepOver),
        ]
    );
    assert_eq!(board.serial.uart16550, Some(0x1000_0000));
    assert_eq!(board.clint.clint, None);
    assert_eq!(board.sifive_test.sifive_test, None);
}

#[test]
fn walker_keeps_a_record_only_when_asked() {
    let mut silent = Walker { board: FdtBoard::new(), record: None };
    let mut keeping = Walker { board: FdtBoard::new(), record: Some(Vec::new()) };
    let range = AddressRange { start: 0x200_0000, end: 0x201_0000 };
    for walker in [&mut silent, &mut keeping] {
        let seen = Visited::SubNode { name: b"soc" };
        assert_eq!(walker.observe(0, b"", &seen), WalkStep::StepInto);
        let seen = Visited::Reg { first: Some(range) };
        assert_eq!(walker.observe(2, b"clint@2000000", &seen), WalkStep::StepOut);
        assert_eq!(walker.board.clint.clint, Some(0x200_0000));
    }
    assert_eq!(silent.record, None);
    assert_eq!(
        keeping.record,
        Some(vec![
            Taken {
                level: 0,
                current: vec![],
                met: Met::SubNode { name: b"soc".to_vec() },
                step: WalkStep::StepInto,
            },
            Taken {
                level: 2,
                current: b"clint@2000000".to_vec(),
                met: Met::Reg { first: Some(range) },
                step: WalkStep::StepOut,
            },
        ])
    );
}

#[test]
fn walker_finds_every_known_class() {
    let mut blob = Blob::new();
    blob.begin("soc");
    blob.begin("test@100000");
    blob.reg(0x10_0000, 0x1000);
    blob.end();
    blob.begin("clint@2000000");
    blob.prop("compatible", b"riscv,clint0\0");
    blob.reg(0x200_0000, 0x1_0000);
    blob.end();
    blob.begin("serial@10000000");
    blob.reg(0x1000_0000, 0x100);
    blob.end();
    blob.end();
    let board = walked(&blob.finish());
    assert_eq!(board.serial.uart16550, Some(0x1000_0000));
    assert_eq!(board.clint, ClintHandle { clint: Some(0x200_0000), max_hart_id: 7 });
    assert_eq!(board.sifive_test, SifiveTestHandle { sifive_test: Some(0x10_0000) });
}

#[test]
fn node_without_reg_leaves_its_handle_unset() {
    let mut blob = Blob::new();
    blob.begin("soc");
    blob.begin("uart0");
    blob.prop("compatible", b"ns16550a\0");
    blob.end();
    blob.begin("clint");
    blob.prop("reg", b"");
    blob.end();
    blob.begin("test");
    blob.end();
    blob.end();
    let board = walked(&blob.finish());
    assert_eq!(board, FdtBoard::new());
}

#[test]
fn later_node_of_a_class_takes_over() {
    let mut blob = Blob::new();
    blob.begin("soc");
    blob.begin("uart0");
    blob.reg(0x1000_0000, 0x100);
    blob.end();
    blob.begin("uart1");
    blob.reg(0x1000_1000, 0x100);
    blob.end();
    blob.end();
    let board = walked(&blob.finish());
    assert_eq!(board.serial.uart16550, Some(0x1000_1000));
}

#[test]
fn visit_enters_only_soc_below_the_root() {
    let mut board = FdtBoard::new();
    let step = |board: &mut FdtBoard, level: usize, current: &[u8], name: &[u8]| {
        board.visit(level, current, &Visited::SubNode { name })
    };
    assert_eq!(step(&mut board, 0, b"", b"soc"), WalkStep::StepInto);
    for name in [&b"cpu"[..], b"so", b"soc2", b"", b"uart0", b"memory@80000000"] {
        assert_eq!(step(&mut board, 0, b"", name), WalkStep::StepOver);
    }
    for name in [&b"uart"[..], b"uart0", b"serial@10000000", b"clint", b"test@100000"] {
        assert_eq!(step(&mut board, 1, b"soc", name), WalkStep::StepInto);
    }
    for name in [&b"uar"[..], b"pci", b"soc", b"", b"Serial", b"tes", b"interrupt-controller"] {
        assert_eq!(step(&mut board, 1, b"soc", name), WalkStep::StepOver);
    }
    for name in [&b"uart0"[..], b"soc", b"clint"] {
        assert_eq!(step(&mut board, 1, b"cpu", name), WalkStep::StepOver);
        assert_eq!(step(&mut board, 2, b"uart0", name), WalkStep::StepOver);
    }
    assert_eq!(step(&mut board, 3, b"soc", b"uart0"), WalkStep::StepInto);
    assert_eq!(board, FdtBoard::new());
}

#[test]
fn visit_takes_the_first_range_and_steps_out() {
    let range = AddressRange { start: 0x1000_0000, end: 0x1000_0400 };
    let first = Visited::Reg { first: Some(range) };
    let empty = Visited::Reg { first: None };
    let mut board = FdtBoard::new();
    assert_eq!(board.visit(2, b"uart0", &first), WalkStep::StepOut);
    assert_eq!(board.serial.uart16550, Some(0x1000_0000));
    assert_eq!(board.visit(2, b"serial", &empty), WalkStep::StepOut);
    assert_eq!(board.serial.uart16550, Some(0x1000_0000));
    assert_eq!(board.visit(2, b"clint@0", &empty), WalkStep::StepOut);
    assert_eq!(board.clint.clint, None);
    assert_eq!(board.visit(2, b"clint@0", &first), WalkStep::StepOut);
    assert_eq!(board.clint, ClintHandle { clint: Some(0x1000_0000), max_hart_id: 7 });
    assert_eq!(board.visit(2, b"test", &first), WalkStep::StepOut);
    assert_eq!(board.sifive_test.sifive_test, Some(0x1000_0000));
    let before = board;
    assert_eq!(board.visit(1, b"soc", &first), WalkStep::StepOver);
    assert_eq!(board.visit(0, b"", &first), WalkStep::StepOver);
    assert_eq!(board.visit(2, b"uart0", &Visited::Property), WalkStep::StepOver);
    assert_eq!(board.visit(0, b"", &Visited::Property), WalkStep::StepOver);
    assert_eq!(board, before);
}

#[test]
fn names_are_compared_by_their_bytes() {
    assert!(starts_with(b"uart0", b"uart"));
    assert!(starts_with(b"uart", b"uart"));
    assert!(starts_with(b"uart", b""));
    assert!(starts_with(b"", b""));
    assert!(!starts_with(b"uar", b"uart"));
    assert!(!starts_with(b"", b"u"));
    assert!(!starts_with(b"uarT0", b"uart"));
    assert!(!starts_with(b"xuart", b"uart"));
    assert!(is_soc(b"soc"));
    assert!(!is_soc(b"soc0"));
    assert!(!is_soc(b"so"));
    assert!(!is_soc(b"sod"));
    assert_eq!(node_class(b"uart"), NodeClass::Serial);
    assert_eq!(node_class(b"serial@1"), NodeClass::Serial);
    assert_eq!(node_class(b"clint@2000000"), NodeClass::Clint);
    assert_eq!(node_class(b"testing"), NodeClass::Test);
    assert_eq!(node_class(b"seria"), NodeClass::Unknown);
    assert_eq!(node_class(b""), NodeClass::Unknown);
}

#[test]
fn two_header_faults_are_tolerated() {
    assert!(is_tolerated(HeaderFault::Misaligned(4)));
    assert!(is_tolerated(HeaderFault::LastCompVersion(16)));
    assert!(is_tolerated(HeaderFault::LastCompVersion(2)));
    assert!(!is_tolerated(HeaderFault::Misaligned(2)));
    assert!(!is_tolerated(HeaderFault::Misaligned(1)));
    assert!(!is_tolerated(HeaderFault::Misaligned(8)));
    assert!(!is_tolerated(HeaderFault::Other));
    assert!(tolerates(&HeaderError::Misaligned(4)));
    assert!(tolerates(&HeaderError::LastCompVersion(15)));
    assert!(!tolerates(&HeaderError::Misaligned(2)));
    assert!(!tolerates(&HeaderError::Magic(0)));
    assert!(!tolerates(&HeaderError::Version(4)));
    assert!(!tolerates(&HeaderError::TotalSize(4)));
    assert!(!tolerates(&HeaderError::StructMisaligned(4)));
    assert!(!tolerates(&HeaderError::MemRsvMisaligned(4)));
    assert!(!tolerates(&HeaderError::StructContent));
    assert!(!tolerates(&HeaderError::StructSize { value: 4, max: 0 }));
    assert!(!tolerates(&HeaderError::StringsSize { value: 4, max: 0 }));
    assert!(!tolerates(&HeaderError::StructOffset { value: 4, expected: 8..16 }));
    assert!(!tolerates(&HeaderError::MemRsvOffset { value: 4, expected: 8..16 }));
    assert!(!tolerates(&HeaderError::StringsOffset { value: 4, expected: 8..16 }));
}

#[test]
fn console_takes_buffers_inside_memory() {
    let serial = SerialHandle { uart16550: Some(0x1000_0000), range: MEMORY };
    let proceed = ConsoleRequest::Proceed { uart16550: 0x1000_0000 };
    assert_eq!(serial.write(0x8020_0000, 1), proceed);
    assert_eq!(serial.write(0x8020_0000, 0x0fe0_0000), proceed);
    assert_eq!(serial.write(0x8fff_ffff, 1), proceed);
    assert_eq!(serial.write(0x8020_0001, 0), proceed);
    assert_eq!(serial.write(0x8020_0000, 0), ConsoleRequest::InvalidParam);
    assert_eq!(serial.write(0x8020_0000, 0x0fe0_0001), ConsoleRequest::InvalidParam);
    assert_eq!(serial.write(0x801f_ffff, 2), ConsoleRequest::InvalidParam);
    assert_eq!(serial.write(0x9000_0000, 1), ConsoleRequest::InvalidParam);
    assert_eq!(serial.write(0x9000_0000, 0), ConsoleRequest::InvalidParam);
    assert_eq!(serial.write(0, 0), ConsoleRequest::InvalidParam);
    assert_eq!(serial.write(0x8020_0000, usize::MAX), ConsoleRequest::InvalidParam);
    assert_eq!(serial.write_byte(), proceed);
    let none = SerialHandle { uart16550: None, range: MEMORY };
    assert_eq!(none.write(0x8020_0000, 1), ConsoleRequest::Failed);
    assert_eq!(none.write(0, 0), ConsoleRequest::Failed);
    assert_eq!(none.write_byte(), ConsoleRequest::Failed);
    let low = SerialHandle { uart16550: Some(1), range: AddressRange { start: 0, end: 16 } };
    assert_eq!(low.write(0, 0), ConsoleRequest::InvalidParam);
    assert_eq!(low.write(0, 16), ConsoleRequest::Proceed { uart16550: 1 });
    assert!(MEMORY.contains(0x8020_0000));
    assert!(!MEMORY.contains(0x9000_0000));
}

#[test]
fn interrupts_go_to_the_harts_of_the_mask() {
    let clint = ClintHandle { clint: Some(0x200_0000), max_hart_id: 7 };
    let to = |harts: &[usize]| IpiRequest::Proceed { clint: 0x200_0000, harts: harts.to_vec() };
    assert_eq!(clint.send_ipi(0b1010_0101, 0), to(&[0, 2, 5, 7]));
    assert_eq!(clint.send_ipi(0, 0), to(&[]));
    assert_eq!(clint.send_ipi(usize::MAX, 0), to(&[0, 1, 2, 3, 4, 5, 6, 7]));
    assert_eq!(clint.send_ipi(0, usize::MAX), to(&[0, 1, 2, 3, 4, 5, 6, 7]));
    assert_eq!(clint.send_ipi(0b11, 4), to(&[4, 5]));
    assert_eq!(clint.send_ipi(0b111, 6), to(&[6, 7]));
    assert_eq!(clint.send_ipi(usize::MAX, 8), to(&[]));
    assert_eq!(clint.send_ipi(1 << 7, 0), to(&[7]));
    let one = ClintHandle { clint: Some(9), max_hart_id: 0 };
    assert_eq!(one.send_ipi(0b11, 0), IpiRequest::Proceed { clint: 9, harts: vec![0] });
    assert_eq!(one.set_timer(), Some(9));
    let none = ClintHandle { clint: None, max_hart_id: 7 };
    assert_eq!(none.send_ipi(0b1, 0), IpiRequest::NotSupported);
    assert_eq!(none.set_timer(), None);
}

#[test]
fn reset_requests() {
    let test = SifiveTestHandle { sifive_test: Some(0x10_0000) };
    let at = 0x10_0000;
    assert_eq!(test.system_reset(0, 0), ResetRequest::Pass { sifive_test: at });
    assert_eq!(test.system_reset(0, 1), ResetRequest::Fail { sifive_test: at, code: 0xffff });
    assert_eq!(test.system_reset(0, 2), ResetRequest::Fail { sifive_test: at, code: 2 });
    assert_eq!(test.system_reset(0, 0x1_0003), ResetRequest::Fail { sifive_test: at, code: 3 });
    assert_eq!(
        test.system_reset(0, 0xffff_ffff),
        ResetRequest::Fail { sifive_test: at, code: 0xffff }
    );
    assert_eq!(test.system_reset(1, 0), ResetRequest::Reset { sifive_test: at });
    assert_eq!(test.system_reset(2, 1), ResetRequest::Reset { sifive_test: at });
    assert_eq!(test.system_reset(3, 0), ResetRequest::InvalidParam);
    assert_eq!(test.system_reset(0xffff_ffff, 0), ResetRequest::InvalidParam);
    let none = SifiveTestHandle { sifive_test: None };
    for reset_type in [0, 1, 2, 3] {
        assert_eq!(none.system_reset(reset_type, 0), ResetRequest::NotSupported);
    }
}

#[test]
fn board_puts_what_it_found_to_use() {
    let mut console = MachineConsole::new();
    let mut reset = MachineReset::new();
    assert_eq!(console, MachineConsole::Uart16550(0x1000_0000));
    assert_eq!(console.put_char(), 0x1000_0000);
    assert_eq!(fail(&reset), Failure::DeadLoop);
    let mut board = FdtBoard::new();
    board.init(&mut console, &mut reset);
    assert_eq!(console, MachineConsole::Uart16550(0x1000_0000));
    assert_eq!(reset, MachineReset::DeadLoop);
    board.set_uart16550_serial(AddressRange { start: 0x0250_0000, end: 0x0250_0400 });
    board.set_clint(AddressRange { start: 0x200_0000, end: 0x201_0000 });
    board.init(&mut console, &mut reset);
    assert_eq!(console, MachineConsole::Uart16550(0x0250_0000));
    assert_eq!(console.put_char(), 0x0250_0000);
    assert_eq!(reset, MachineReset::DeadLoop);
    assert_eq!(board.clint.clint, Some(0x200_0000));
    board.set_sifive_test(AddressRange { start: 0x10_0000, end: 0x10_1000 });
    board.init(&mut console, &mut reset);
    assert_eq!(reset, MachineReset::SifiveTest(0x10_0000));
    assert_eq!(fail(&reset), Failure::TestFail { sifive_test: 0x10_0000, code: 0 });
    load_console_uart16550(&mut console, 5);
    load_reset_sifive_test(&mut reset, 6);
    assert_eq!(console, MachineConsole::Uart16550(5));
    assert_eq!(reset, MachineReset::SifiveTest(6));
    assert_eq!(console.put_str(10, 3), 7);
    assert_eq!(console.put_str(7, 7), 0);
    assert_eq!(console.put_str(7, 0), 7);
}

#[test]
fn console_only_board() {
    let mut board = Board::new();
    assert_eq!(board.uart16550_serial(), None);
    assert_eq!(board.serial.range, MEMORY);
    board.set_uart16550_serial(AddressRange { start: 0x1000_0000, end: 0x1000_0100 });
    assert_eq!(board.uart16550_serial(), Some(0x1000_0000));
    assert_eq!(board.serial.range, MEMORY);
}

#[test]
fn device_tree_signature() {
    assert!(is_fdt_blob(0xd00d_feed));
    assert!(!is_fdt_blob(0xedfe_0dd0));
    assert!(!is_fdt_blob(0));
}

#[test]
fn supervisor_types() {
    assert_ne!(Operation::Stop, Operation::SystemReset);
    let context = SupervisorContext { machine_sp: 1, x: [0; 31], mstatus: 2, mepc: 3 };
    assert_eq!(context.x.len(), 31);
    assert_eq!((context.machine_sp, context.mstatus, context.mepc), (1, 2, 3));
}
