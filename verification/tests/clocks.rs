use rustsbi_proto::ccu::{
    ClockConfig, ClockGate, ClockSource, FactorN, SpiBgr, SpiClk, UartBgr, CCU, SPI, UART,
};
use rustsbi_proto::mmio::{Access, Register};
use rustsbi_proto::time::{Bps, Hz, U32Ext};

const CCU_BASE: usize = 0x0200_1000;

#[test]
fn uart_gating_bits_move_alone() {
    let all = UartBgr::from_bits(0xffff_ffff);
    let none = UartBgr::from_bits(0);
    assert_eq!(all.gate_mask::<0>().bits(), 0xffff_fffe);
    assert_eq!(all.gate_mask::<5>().bits(), 0xffff_ffdf);
    assert_eq!(none.gate_pass::<0>().bits(), 0x0000_0001);
    assert_eq!(none.gate_pass::<5>().bits(), 0x0000_0020);
    assert_eq!(all.assert_reset::<0>().bits(), 0xfffe_ffff);
    assert_eq!(all.assert_reset::<5>().bits(), 0xffdf_ffff);
    assert_eq!(none.deassert_reset::<0>().bits(), 0x0001_0000);
    assert_eq!(none.deassert_reset::<5>().bits(), 0x0020_0000);
    assert_eq!(none.gate_mask::<3>().bits(), 0);
    assert_eq!(all.gate_pass::<3>().bits(), 0xffff_ffff);
}

#[test]
fn spi_gating_bits_move_alone() {
    let all = SpiBgr::from_bits(0xffff_ffff);
    let none = SpiBgr::from_bits(0);
    assert_eq!(all.gate_mask::<1>().bits(), 0xffff_fffd);
    assert_eq!(none.gate_pass::<1>().bits(), 0x0000_0002);
    assert_eq!(all.assert_reset::<1>().bits(), 0xfffd_ffff);
    assert_eq!(none.deassert_reset::<1>().bits(), 0x0002_0000);
    assert_eq!(all.gate_mask::<1>().assert_reset::<1>().bits(), 0xfffd_fffd);
    assert_eq!(none.gate_pass::<1>().deassert_reset::<1>().bits(), 0x0002_0002);
}

#[test]
fn spi_clock_fields_round_trip() {
    let clk = SpiClk::from_bits(0xffff_ffff);
    for (source, code) in [
        (ClockSource::Hosc, 0u32),
        (ClockSource::PllPeri1x, 1),
        (ClockSource::PllPeri2x, 2),
        (ClockSource::PllAudio1Div2, 3),
        (ClockSource::PllAudio1Div5, 4),
    ] {
        let set = clk.set_clock_source(source);
        assert_eq!(set.bits(), 0xf8ff_ffff | (code << 24));
        assert!(set.has_clock_source());
        assert_eq!(set.clock_source(), source);
    }
    assert!(!clk.has_clock_source());
    assert!(!SpiClk::from_bits(5 << 24).has_clock_source());
    for (factor, code) in [(FactorN::N1, 0u32), (FactorN::N2, 1), (FactorN::N4, 2), (FactorN::N8, 3)]
    {
        let set = clk.set_factor_n(factor);
        assert_eq!(set.bits(), 0xffff_fcff | (code << 8));
        assert_eq!(set.factor_n(), factor);
    }
    for m in 0..16u8 {
        let set = clk.set_factor_m(m);
        assert_eq!(set.bits(), 0xffff_fff0 | m as u32);
        assert_eq!(set.factor_m(), m);
    }
    assert_eq!(SpiClk::from_bits(0).set_factor_m(0x35).bits(), 0x35);
    assert_eq!(SpiClk::from_bits(0).set_factor_m(0x35).factor_m(), 5);
}

#[test]
fn factor_n_codes_and_divisors() {
    for (code, factor, divisor) in
        [(0u8, FactorN::N1, 1u32), (1, FactorN::N2, 2), (2, FactorN::N4, 4), (3, FactorN::N8, 8)]
    {
        assert_eq!(FactorN::from_code(code), factor);
        assert_eq!(factor.divide_by(), divisor);
    }
}

#[test]
fn uart_reset_closes_then_opens() {
    let ccu = CCU::steal_dynamic(CCU_BASE);
    let reg = Register { base: CCU_BASE, offset: 0x90c };
    let script = <UART<0> as ClockGate>::reset(&ccu);
    assert_eq!(script[0], Access::Modify { reg, clear: 0x0001_0001, set: 0 });
    assert_eq!(script[1], Access::Modify { reg, clear: 0, set: 0x0001_0001 });
    let script = <UART<3> as ClockGate>::reset(&ccu);
    assert_eq!(script[0], Access::Modify { reg, clear: 0x0008_0008, set: 0 });
    assert_eq!(script[1], Access::Modify { reg, clear: 0, set: 0x0008_0008 });
    let between = script[0].apply(0xffff_ffff);
    assert_eq!(between, 0xfff7_fff7);
    assert_eq!(between, UartBgr::from_bits(0xffff_ffff).gate_mask::<3>().assert_reset::<3>().bits());
    let after = script[1].apply(between);
    assert_eq!(after, 0xffff_ffff);
    assert_eq!(script[1].apply(script[0].apply(0)), 0x0008_0008);
    assert_eq!(
        script[1].apply(0x1234_0000),
        UartBgr::from_bits(0x1234_0000).gate_pass::<3>().deassert_reset::<3>().bits()
    );
}

#[test]
fn uart_free_only_closes() {
    let ccu = CCU::steal_dynamic(CCU_BASE);
    let reg = Register { base: CCU_BASE, offset: 0x90c };
    let access = <UART<2> as ClockGate>::free(&ccu);
    assert_eq!(access, Access::Modify { reg, clear: 0x0004_0004, set: 0 });
    assert_eq!(access.apply(0xffff_ffff), 0xfffb_fffb);
}

#[test]
fn spi_reset_and_free_use_the_spi_register() {
    let ccu = CCU::steal_dynamic(CCU_BASE);
    let reg = Register { base: CCU_BASE, offset: 0x96c };
    let script = <SPI<1> as ClockGate>::reset(&ccu);
    assert_eq!(script[0], Access::Modify { reg, clear: 0x0002_0002, set: 0 });
    assert_eq!(script[1], Access::Modify { reg, clear: 0, set: 0x0002_0002 });
    assert_eq!(<SPI<1> as ClockGate>::free(&ccu), script[0]);
}

#[test]
fn spi_config_sets_source_and_factors() {
    let ccu = CCU::steal_dynamic(CCU_BASE);
    let access = <SPI<0> as ClockConfig>::config(ClockSource::PllPeri1x, 2, FactorN::N2, &ccu);
    assert_eq!(
        access,
        Access::Modify {
            reg: Register { base: CCU_BASE, offset: 0x940 },
            clear: 0x0700_030f,
            set: 0x0100_0102,
        }
    );
    let access = <SPI<1> as ClockConfig>::config(ClockSource::PllAudio1Div5, 15, FactorN::N8, &ccu);
    assert_eq!(
        access,
        Access::Modify {
            reg: Register { base: CCU_BASE, offset: 0x944 },
            clear: 0x0700_030f,
            set: 0x0400_030f,
        }
    );
    let word = access.apply(0xffff_ffff);
    assert_eq!(word, 0xfcff_ffff);
    let clk = SpiClk::from_bits(word);
    assert_eq!(clk.clock_source(), ClockSource::PllAudio1Div5);
    assert_eq!(clk.factor_n(), FactorN::N8);
    assert_eq!(clk.factor_m(), 15);
    assert_eq!(
        word,
        SpiClk::from_bits(0xffff_ffff)
            .set_clock_source(ClockSource::PllAudio1Div5)
            .set_factor_m(15)
            .set_factor_n(FactorN::N8)
            .bits()
    );
}

#[test]
fn register_writes_carry_the_word() {
    let block = rustsbi_proto::ccu::RegisterBlock::at(CCU_BASE);
    assert_eq!(
        block.uart_bgr.write(UartBgr::from_bits(0x55)),
        Access::Write { reg: Register { base: CCU_BASE, offset: 0x90c }, value: 0x55 }
    );
    assert_eq!(
        block.spi_clk[1].write(SpiClk::from_bits(0x66)),
        Access::Write { reg: Register { base: CCU_BASE, offset: 0x944 }, value: 0x66 }
    );
    assert_eq!(
        block.spi_bgr.write(SpiBgr::from_bits(0x77)),
        Access::Write { reg: Register { base: CCU_BASE, offset: 0x96c }, value: 0x77 }
    );
}

#[test]
fn accesses_store_what_they_say() {
    let reg = Register { base: 1, offset: 2 };
    assert_eq!(Access::Write { reg, value: 9 }.apply(0xffff_ffff), 9);
    assert_eq!(Access::Modify { reg, clear: 0xff, set: 0x100 }.apply(0x0abc), 0x0b00);
    assert_eq!(Access::WriteByte { reg, byte: 9 }.apply(0x1234), 0x1234);
    assert_eq!(Access::WaitClear { reg, mask: 1 }.apply(0x1234), 0x1234);
    assert_eq!(Access::WaitSet { reg, mask: 1 }.apply(0x1234), 0x1234);
    assert_eq!(Access::ReadByte { reg }.apply(0x1234), 0x1234);
    assert_eq!(Access::WriteHalf { reg, half: 9 }.apply(0x1234), 0x1234);
    assert_eq!(Access::ReadHalf { reg }.apply(0x1234), 0x1234);
    assert_eq!(Access::Read { reg }.apply(0x1234), 0x1234);
    assert_eq!(Access::WriteHalf { reg, half: 9 }.register(), reg);
    assert_eq!(Access::ReadHalf { reg }.register(), reg);
    assert_eq!(Access::Read { reg }.register(), reg);
    assert_eq!(Access::ReadByte { reg }.register(), reg);
    assert_eq!(Access::Modify { reg, clear: 0, set: 0 }.register(), reg);
}

#[test]
fn numbers_become_units() {
    assert_eq!(115200.bps(), Bps(115200));
    assert_eq!(100_000_000.hz(), Hz(100_000_000));
}
