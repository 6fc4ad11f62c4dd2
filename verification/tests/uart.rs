use rustsbi_proto::base_address::Dynamic;
use rustsbi_proto::ccu::{Clocks, CCU};
use rustsbi_proto::mmio::{Access, Register};
use rustsbi_proto::time::{Bps, Hz};
use rustsbi_proto::uart::{
    divisor, Config, Parity, Receive, RegisterBlock, Serial, Step, StopBits, Transmit, UartStatus,
    WordLength, UART,
};

const UART_BASE: usize = 0x0250_0000;
const CCU_BASE: usize = 0x0200_1000;

struct Tx;
struct Rx;
impl Transmit<0> for Tx {}
impl Receive<0> for Rx {}
impl Transmit<2> for Tx {}
impl Receive<2> for Rx {}

fn config(baudrate: u32) -> Config {
    Config {
        baudrate: Bps(baudrate),
        wordlength: WordLength::Eight,
        parity: Parity::NoParity,
        stopbits: StopBits::One,
    }
}

fn serial0() -> Serial<Dynamic, 0, (Tx, Rx)> {
    let clocks = Clocks { psi: Hz(600_000_000), apb1: Hz(24_000_000) };
    let ccu = CCU::steal_dynamic(CCU_BASE);
    Serial::new(UART::steal_dynamic(UART_BASE), (Tx, Rx), config(115200), &clocks, &ccu).0
}

#[test]
fn divisor_rounds_to_the_nearest() {
    assert_eq!(divisor(24_000_000, 115200), 13);
    assert_eq!(divisor(24_000_000, 9600), 156);
    assert_eq!(divisor(24_000_000, 1_500_000), 1);
    assert_eq!(divisor(16, 1), 1);
    assert_eq!(divisor(23, 1), 1);
    assert_eq!(divisor(24, 1), 2);
    assert_eq!(divisor(7, 1), 0);
    assert_eq!(divisor(8, 1), 1);
    assert_eq!(divisor(0, 115200), 0);
}

#[test]
fn divisor_keeps_sixteen_bits_and_never_overflows() {
    assert_eq!(divisor(0xffff_ffff, 1), 0);
    assert_eq!(divisor(0x0010_0000, 1), 0);
    assert_eq!(divisor(0x0010_0010, 1), 1);
    assert_eq!(divisor(0x000f_fff0, 1), 0xffff);
    assert_eq!(divisor(0xffff_ffff, 0xffff_ffff), 0);
    assert_eq!(divisor(0xffff_ffff, 0x1000_0000), 1);
}

#[test]
fn new_brings_the_peripheral_up() {
    let clocks = Clocks { psi: Hz(600_000_000), apb1: Hz(24_000_000) };
    let ccu = CCU::steal_dynamic(CCU_BASE);
    let (_, script) = Serial::<Dynamic, 0, (Tx, Rx)>::new(
        UART::steal_dynamic(UART_BASE),
        (Tx, Rx),
        config(115200),
        &clocks,
        &ccu,
    );
    let gating = Register { base: CCU_BASE, offset: 0x90c };
    assert_eq!(
        script,
        [
            Step::Bus(Access::Modify { reg: gating, clear: 0x0001_0001, set: 0 }),
            Step::Bus(Access::Modify { reg: gating, clear: 0, set: 0x0001_0001 }),
            Step::DisableInterrupts,
            Step::WriteDivisor(13),
            Step::LineControl {
                wordlength: WordLength::Eight,
                one_stop_bit: true,
                parity: Parity::NoParity,
            },
        ]
    );
}

#[test]
fn new_passes_the_frame_on() {
    let clocks = Clocks { psi: Hz(600_000_000), apb1: Hz(24_000_000) };
    let ccu = CCU::steal_dynamic(CCU_BASE);
    let frame = Config {
        baudrate: Bps(9600),
        wordlength: WordLength::Seven,
        parity: Parity::Even,
        stopbits: StopBits::Two,
    };
    let (serial, script) = Serial::<Dynamic, 2, (Tx, Rx)>::new(
        UART::steal_dynamic(UART_BASE),
        (Tx, Rx),
        frame,
        &clocks,
        &ccu,
    );
    let gating = Register { base: CCU_BASE, offset: 0x90c };
    assert_eq!(script[0], Step::Bus(Access::Modify { reg: gating, clear: 0x0004_0004, set: 0 }));
    assert_eq!(script[1], Step::Bus(Access::Modify { reg: gating, clear: 0, set: 0x0004_0004 }));
    assert_eq!(script[3], Step::WriteDivisor(156));
    assert_eq!(
        script[4],
        Step::LineControl {
            wordlength: WordLength::Seven,
            one_stop_bit: false,
            parity: Parity::Even,
        }
    );
    let (_, _, access) = serial.free(&ccu);
    assert_eq!(access, Access::Modify { reg: gating, clear: 0x0004_0004, set: 0 });
}

#[test]
fn write_waits_before_each_byte() {
    let idle = Step::Bus(Access::WaitSet {
        reg: Register { base: UART_BASE, offset: 0x7c },
        mask: 2,
    });
    assert_eq!(
        serial0().write(b"Hi"),
        vec![idle, Step::Transmit(b'H'), idle, Step::Transmit(b'i')]
    );
    assert_eq!(serial0().write(b""), vec![]);
}

#[test]
fn flush_waits_for_the_empty_fifo() {
    assert_eq!(
        serial0().flush(),
        Step::Bus(Access::WaitSet { reg: Register { base: UART_BASE, offset: 0x7c }, mask: 4 })
    );
}

#[test]
fn try_write_blocks_while_the_fifo_is_full() {
    let serial = serial0();
    assert_eq!(serial.try_write(UartStatus::from_bits(0x00), b'x'), None);
    assert_eq!(serial.try_write(UartStatus::from_bits(0xfd), b'x'), None);
    assert_eq!(serial.try_write(UartStatus::from_bits(0x02), b'x'), Some(Step::Transmit(b'x')));
    assert_eq!(serial.try_write(UartStatus::from_bits(0xff), b'y'), Some(Step::Transmit(b'y')));
    assert!(serial.try_flush(UartStatus::from_bits(0x04)));
    assert!(!serial.try_flush(UartStatus::from_bits(0xfb)));
}

#[test]
fn status_flags() {
    let flags = [0x10u8, 0x08, 0x04, 0x02, 0x01];
    for (i, flag) in flags.iter().enumerate() {
        let only = UartStatus::from_bits(*flag);
        let but = UartStatus::from_bits(!*flag);
        let read = |status: UartStatus| {
            [
                status.receive_fifo_full(),
                status.receive_fifo_not_empty(),
                status.transmit_fifo_empty(),
                status.transmit_fifo_not_full(),
                status.busy(),
            ]
        };
        for k in 0..5 {
            assert_eq!(read(only)[k], k == i);
            assert_eq!(read(but)[k], k != i);
        }
    }
}

#[test]
fn status_is_the_low_byte_of_the_word() {
    let usr = RegisterBlock::at(UART_BASE).usr;
    assert_eq!(usr.read(0xffff_ff00), UartStatus::from_bits(0));
    assert_eq!(usr.read(0x1234_5617), UartStatus::from_bits(0x17));
    assert!(usr.read(0x0000_0101).busy());
    assert!(!usr.read(0x0000_0100).busy());
}
