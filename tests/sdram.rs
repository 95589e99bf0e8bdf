use atsamx7x_hal::clock_gen::{
    Clocks, MainckConfig, MasterClockConfig, MasterDivider, MasterPrescale, PllackConfig,
    SlckConfig, SystemClockConfig, UpllckConfig,
};
use atsamx7x_hal::gpio::{GpioExt, Pio, Port};
use atsamx7x_hal::regs::RegOp;
use atsamx7x_hal::sdram::{
    cycles, Sdram, SdramAlignment, SdramBanks, SdramCasLatency, SdramColumns, SdramConfig,
    SdramError, SdramPins, SdramRows, SdramTiming, Sdramc, SDRAMC_CR, SDRAMC_MR, SDRAMC_TR,
    SDRAM_START,
};
use atsamx7x_hal::time::{Hertz, NanoSeconds, PicoSeconds};
use atsamx7x_hal::peripherals::Peripherals;

fn sdram_pio(port: Port) -> Pio {
    let mut taken = false;
    let p = Peripherals::take(&mut taken).unwrap();
    match port {
        Port::A => p.pioa,
        Port::B => p.piob,
        Port::C => p.pioc,
        Port::D => p.piod,
        Port::E => p.pioe,
    }
}

fn sdramc_of() -> Sdramc {
    let mut taken = false;
    Peripherals::take(&mut taken).unwrap().sdramc
}


fn clocks(pll: Option<(u8, u16)>) -> Clocks {
    // without a PLL the master clock runs from a crystal declared at 0 Hz
    let (plla, crystal, master) = match pll {
        Some((d, m)) => (
            PllackConfig::default().from_divider(d, m),
            12_000_000,
            MasterClockConfig::default().src_pllack(),
        ),
        None => (PllackConfig::default(), 0, MasterClockConfig::default().src_mainck()),
    };
    let cfg = SystemClockConfig {
        slck_conf: SlckConfig::default(),
        mainck_conf: MainckConfig::default().use_crystal(Hertz(crystal)),
        plla_conf: plla,
        upll_conf: UpllckConfig::default(),
        mck_conf: master.from_divider(MasterPrescale::Pres2, MasterDivider::Div2),
    };
    cfg.freeze().unwrap().0
}

fn pins() -> SdramPins {
    let (a, _) = sdram_pio(Port::A).split();
    let (c, _) = sdram_pio(Port::C).split();
    let (d, _) = sdram_pio(Port::D).split();
    let (e, _) = sdram_pio(Port::E).split();
    SdramPins {
        a0: c.p20.into_peripheral_a().0,
        a1: c.p21.into_peripheral_a().0,
        a2: c.p22.into_peripheral_a().0,
        a3: c.p23.into_peripheral_a().0,
        a4: c.p24.into_peripheral_a().0,
        a5: c.p25.into_peripheral_a().0,
        a6: c.p26.into_peripheral_a().0,
        a7: c.p27.into_peripheral_a().0,
        a8: c.p28.into_peripheral_a().0,
        a9: c.p29.into_peripheral_a().0,
        a10: d.p13.into_peripheral_c().0,
        a11: c.p31.into_peripheral_a().0,
        a12: a.p18.into_peripheral_c().0,
        d0: c.p0.into_peripheral_a().0,
        d1: c.p1.into_peripheral_a().0,
        d2: c.p2.into_peripheral_a().0,
        d3: c.p3.into_peripheral_a().0,
        d4: c.p4.into_peripheral_a().0,
        d5: c.p5.into_peripheral_a().0,
        d6: c.p6.into_peripheral_a().0,
        d7: c.p7.into_peripheral_a().0,
        d8: e.p0.into_peripheral_a().0,
        d9: e.p1.into_peripheral_a().0,
        d10: e.p2.into_peripheral_a().0,
        d11: e.p3.into_peripheral_a().0,
        d12: e.p4.into_peripheral_a().0,
        d13: e.p5.into_peripheral_a().0,
        d14: a.p15.into_peripheral_a().0,
        d15: a.p16.into_peripheral_a().0,
        ba0: a.p20.into_peripheral_c().0,
        ba1: a.p0.into_peripheral_c().0,
        dqm0: c.p18.into_peripheral_a().0,
        dqm1: d.p15.into_peripheral_c().0,
        clk: d.p23.into_peripheral_c().0,
        cke: d.p14.into_peripheral_c().0,
        ras: d.p16.into_peripheral_c().0,
        cas: d.p17.into_peripheral_c().0,
        we: d.p29.into_peripheral_c().0,
    }
}

fn config() -> SdramConfig {
    SdramConfig {
        banks: SdramBanks::Bank4,
        rows: SdramRows::Rows8K,
        columns: SdramColumns::Columns512,
        alignment: SdramAlignment::Unaligned,
        latency: SdramCasLatency::Latency3,
        timing: SdramTiming {
            twr: NanoSeconds(12).to_picos(),
            trc: NanoSeconds(60).to_picos(),
            trp: NanoSeconds(18).to_picos(),
            trcd: NanoSeconds(18).to_picos(),
            tras: NanoSeconds(42).to_picos(),
            txsr: PicoSeconds(61_500),
            refresh: NanoSeconds(7_812).to_picos(),
        },
    }
}

#[test]
fn sdram_32_mib_at_150_mhz() {
    let (sdram, ops) = Sdram::setup(sdramc_of(), pins(), config(), &clocks(Some((1, 49)))).unwrap();
    assert_eq!(sdram.size(), 32 * 1024 * 1024);
    assert_eq!(sdram.start_address(), SDRAM_START);
    let cr = ops
        .iter()
        .find_map(|op| match op {
            RegOp::Write { addr, value } if *addr == SDRAMC_CR => Some(*value),
            _ => None,
        })
        .unwrap();
    assert_eq!((cr >> 12) & 0xF, 9);
    assert_eq!((cr >> 8) & 0xF, 2);
    assert_eq!((cr >> 16) & 0xF, 3);
    assert_eq!((cr >> 20) & 0xF, 3);
    assert_eq!((cr >> 24) & 0xF, 7);
    assert_eq!((cr >> 28) & 0xF, 10);
    // 512 columns, 8K rows, 4 banks, CAS 3, 16-bit bus
    assert_eq!(cr & 0xFF, 1 | (2 << 2) | (1 << 4) | (3 << 5) | (1 << 7));
    assert_eq!(*ops.last().unwrap(), RegOp::Write { addr: SDRAMC_TR, value: 1172 });
}

#[test]
fn sdram_init_sequence_order() {
    let (_, ops) = Sdram::setup(sdramc_of(), pins(), config(), &clocks(Some((1, 49)))).unwrap();
    let modes: Vec<u32> = ops
        .iter()
        .filter_map(|op| match op {
            RegOp::Write { addr, value } if *addr == SDRAMC_MR => Some(*value),
            _ => None,
        })
        .collect();
    assert_eq!(modes, vec![1, 2, 4, 4, 4, 4, 4, 4, 4, 4, 3, 0]);
    assert_eq!(ops[0], RegOp::Write { addr: 0x400E_0600 + 0x100, value: 1 << 30 });
    assert!(ops.contains(&RegOp::Delay { micros: 200 }));
    let delay = ops.iter().position(|op| *op == RegOp::Delay { micros: 200 }).unwrap();
    assert_eq!(ops[delay - 2], RegOp::Write { addr: SDRAMC_MR, value: 1 });
}

#[test]
fn sdram_size_of_each_geometry() {
    let mut c = config();
    c.banks = SdramBanks::Bank2;
    c.rows = SdramRows::Rows2K;
    c.columns = SdramColumns::Columns256;
    assert_eq!(c.size(), 2 * 2048 * 256 * 2);
    c.columns = SdramColumns::Columns2K;
    c.rows = SdramRows::Rows4K;
    assert_eq!(c.size(), 2 * 4096 * 2048 * 2);
}

#[test]
fn cycle_counts_round_up() {
    assert_eq!(cycles(PicoSeconds(60_000), 150_000_000), 9);
    assert_eq!(cycles(PicoSeconds(12_000), 150_000_000), 2);
    assert_eq!(cycles(PicoSeconds(0), 150_000_000), 0);
    assert_eq!(cycles(PicoSeconds(20_000), 100_000_000), 2);
    assert_eq!(cycles(PicoSeconds(u32::MAX), u32::MAX), 18_446_745);
}

#[test]
fn sdram_timing_too_long_is_rejected() {
    let mut c = config();
    c.timing.trc = NanoSeconds(1_000).to_picos();
    let r = Sdram::setup(sdramc_of(), pins(), c, &clocks(Some((1, 49))));
    assert_eq!(r.err().map(|_| ()), Some(()));
    let r = Sdram::setup(sdramc_of(), pins(), c, &clocks(Some((1, 49))));
    assert!(matches!(r, Err(SdramError::TimingOverflow)));
}

#[test]
fn sdram_needs_a_running_master_clock() {
    let r = Sdram::setup(sdramc_of(), pins(), config(), &clocks(None));
    assert!(matches!(r, Err(SdramError::ClockOff)));
}

#[test]
fn sdram_wrong_pin_is_rejected() {
    let mut p = pins();
    let (b, _) = sdram_pio(Port::B).split();
    p.a0 = b.p20.into_peripheral_a().0;
    let r = Sdram::setup(sdramc_of(), p, config(), &clocks(Some((1, 49))));
    assert!(matches!(r, Err(SdramError::WrongPin)));
}

#[test]
fn sdram_cohort_from_parts() {
    let (a, _) = sdram_pio(Port::A).split();
    let (c, _) = sdram_pio(Port::C).split();
    let (d, _) = sdram_pio(Port::D).split();
    let (e, _) = sdram_pio(Port::E).split();
    let (cohort, ops) = SdramPins::from_parts(a, c, d, e).unwrap();
    assert_eq!(ops.len(), 38 * 3);
    assert_eq!(ops[0], RegOp::Modify { addr: 0x400E_1200 + 0x70, mask: 1 << 20, value: 0 });
    // A10 runs on PD13, peripheral C
    assert_eq!(ops[30], RegOp::Modify { addr: 0x400E_1400 + 0x70, mask: 1 << 13, value: 0 });
    assert_eq!(ops[31], RegOp::Modify { addr: 0x400E_1400 + 0x74, mask: 1 << 13, value: 1 << 13 });
    assert_eq!(cohort.a10.index(), 13);
    assert!(Sdram::setup(sdramc_of(), cohort, config(), &clocks(Some((1, 49)))).is_ok());
}

#[test]
fn sdram_cohort_from_wrong_parts() {
    let (a, _) = sdram_pio(Port::A).split();
    let (c, _) = sdram_pio(Port::C).split();
    let (d, _) = sdram_pio(Port::D).split();
    let (e, _) = sdram_pio(Port::B).split();
    assert!(SdramPins::from_parts(a, c, d, e).is_none());
}
