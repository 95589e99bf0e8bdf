use atsamx7x_hal::clock_gen::{
    ClockCalcStrategy, InvalidConfig, MainckConfig, MainckSrc, MasterClockConfig, MasterDivider,
    MasterPrescale, PllackConfig, SlckConfig, SlckSrc, SystemClockConfig, UpllDiv, UpllckConfig,
    UpllckSrcFreq,
};
use atsamx7x_hal::plla::plla_search;
use atsamx7x_hal::regs::RegOp;
use atsamx7x_hal::time::Hertz;

fn crystal_pll_config() -> SystemClockConfig {
    SystemClockConfig {
        slck_conf: SlckConfig::default(),
        mainck_conf: MainckConfig::default().use_crystal(Hertz(12_000_000)).startup_cycles(100),
        plla_conf: PllackConfig::default().from_divider(1, 49),
        upll_conf: UpllckConfig::default().enable().src_freq(UpllckSrcFreq::SRC12MHz),
        mck_conf: MasterClockConfig::default()
            .src_pllack()
            .from_divider(MasterPrescale::Pres2, MasterDivider::Div2),
    }
}

#[test]
fn crystal_and_plla_by_divider_give_150_mhz() {
    let (clocks, _) = crystal_pll_config().freeze().unwrap();
    assert_eq!(clocks.plla(), Hertz(600_000_000));
    assert_eq!(clocks.hclk(), Hertz(300_000_000));
    assert_eq!(clocks.fclk(), Hertz(300_000_000));
    assert_eq!(clocks.mck(), Hertz(150_000_000));
    assert_eq!(clocks.sys_tick(), Hertz(150_000_000));
    assert_eq!(clocks.upll(), Hertz(480_000_000));
    assert_eq!(clocks.uplldiv(), Hertz(480_000_000));
    assert_eq!(clocks.mainck(), Hertz(12_000_000));
    assert_eq!(clocks.slck(), Hertz(32_000));
}

#[test]
fn freeze_programs_plla_and_ends_on_master_clock_switch() {
    let (_, ops) = crystal_pll_config().freeze().unwrap();
    let pllar = 0x400E_0600 + 0x28;
    let expected = (1u32 << 29) | (49 << 16) | (0 << 8) | 1;
    assert!(ops.contains(&RegOp::Write { addr: pllar, value: expected }));
    let n = ops.len();
    assert_eq!(ops[n - 2], RegOp::Modify { addr: 0x400E_0630, mask: 0x3, value: 2 });
    assert_eq!(ops[n - 1], RegOp::WaitSet { addr: 0x400E_0668, mask: 1 << 3 });
    // nothing touches the slow clock when it stays on the RC oscillator
    assert!(!ops.iter().any(|op| matches!(op, RegOp::Write { addr: 0x400E_1810, .. })));
}

#[test]
fn mck_is_source_over_prescaler_over_divider() {
    let mut cfg = SystemClockConfig {
        slck_conf: SlckConfig::default(),
        mainck_conf: MainckConfig::default(),
        plla_conf: PllackConfig::default(),
        upll_conf: UpllckConfig::default(),
        mck_conf: MasterClockConfig::default().from_divider(MasterPrescale::Pres3, MasterDivider::Div3),
    };
    let (clocks, _) = cfg.freeze().unwrap();
    assert_eq!(clocks.hclk(), Hertz(4_000_000));
    assert_eq!(clocks.mck(), Hertz(1_333_333));
    assert_eq!(clocks.sys_tick(), Hertz(2_000_000));

    cfg.mck_conf = MasterClockConfig::default()
        .src_upllckdiv()
        .set_uplldiv(UpllDiv::Div2)
        .from_divider(MasterPrescale::Pres1, MasterDivider::Div4);
    cfg.upll_conf = UpllckConfig::default().enable();
    let (clocks, _) = cfg.freeze().unwrap();
    assert_eq!(clocks.uplldiv(), Hertz(240_000_000));
    assert_eq!(clocks.mck(), Hertz(60_000_000));

    cfg.mck_conf = MasterClockConfig::default().src_slck().from_divider(MasterPrescale::Pres64, MasterDivider::Div1);
    cfg.slck_conf = SlckConfig::default().use_crystal();
    let (clocks, _) = cfg.freeze().unwrap();
    assert_eq!(clocks.mck(), Hertz(512));
}

#[test]
fn rc_frequencies_select_main_clock() {
    let base = crystal_pll_config();
    for (cfg, hz) in [
        (MainckConfig::default().use_rc_4mhz(), 4_000_000),
        (MainckConfig::default().use_rc_8mhz(), 8_000_000),
        (MainckConfig::default().use_rc_12mhz(), 12_000_000),
    ] {
        let c = SystemClockConfig { mainck_conf: cfg, ..base };
        let (clocks, _) = c.freeze().unwrap();
        assert_eq!(clocks.mainck(), Hertz(hz));
        assert_eq!(clocks.plla().0, hz * 50);
    }
}

#[test]
fn selecting_a_disabled_rc_oscillator_is_invalid() {
    let mut cfg = crystal_pll_config();
    cfg.mainck_conf = MainckConfig::default().use_rc_12mhz().disable_rc();
    assert_eq!(cfg.freeze().err(), Some(InvalidConfig));
}

#[test]
fn selecting_a_disabled_crystal_is_invalid() {
    let mut cfg = crystal_pll_config();
    cfg.mainck_conf = MainckConfig::default().use_crystal(Hertz(12_000_000)).disable_crystal();
    assert_eq!(cfg.freeze().err(), Some(InvalidConfig));
}

#[test]
fn bypassing_an_enabled_crystal_is_invalid() {
    let mut cfg = crystal_pll_config();
    let mut main = MainckConfig::default().bypass(Hertz(12_000_000));
    assert_eq!(main.src, MainckSrc::Bypass);
    assert!(!main.crystal_on);
    main.crystal_on = true;
    cfg.mainck_conf = main;
    assert_eq!(cfg.freeze().err(), Some(InvalidConfig));
    cfg.mainck_conf = MainckConfig::default().bypass(Hertz(12_000_000));
    assert!(cfg.freeze().is_ok());
}

#[test]
fn plla_divider_out_of_range_is_invalid() {
    let mut cfg = crystal_pll_config();
    cfg.plla_conf = PllackConfig::default().from_divider(1, 64);
    assert_eq!(cfg.freeze().err(), Some(InvalidConfig));
    cfg.plla_conf = PllackConfig::default().from_divider(0, 10);
    assert_eq!(cfg.freeze().err(), Some(InvalidConfig));
}

#[test]
fn plla_off_gives_zero() {
    let mut cfg = crystal_pll_config();
    cfg.plla_conf = PllackConfig::default();
    cfg.mck_conf = cfg.mck_conf.src_mainck();
    let (clocks, ops) = cfg.freeze().unwrap();
    assert_eq!(clocks.plla(), Hertz(0));
    assert_eq!(clocks.mck(), Hertz(3_000_000));
    // no wait for a lock that never comes
    assert!(!ops.contains(&RegOp::WaitSet { addr: 0x400E_0668, mask: 1 << 1 }));
}

#[test]
fn master_clock_on_a_stopped_pll_is_invalid() {
    let mut cfg = crystal_pll_config();
    cfg.plla_conf = PllackConfig::default();
    assert_eq!(cfg.freeze().err(), Some(InvalidConfig));
    let mut cfg = crystal_pll_config();
    cfg.mck_conf = cfg.mck_conf.src_upllckdiv();
    cfg.upll_conf = cfg.upll_conf.disable();
    assert_eq!(cfg.freeze().err(), Some(InvalidConfig));
    cfg.upll_conf = cfg.upll_conf.enable();
    assert_eq!(cfg.freeze().unwrap().0.mck(), Hertz(120_000_000));
}

#[test]
fn slow_clock_follows_its_source() {
    let mut cfg = crystal_pll_config();
    cfg.mck_conf = MasterClockConfig::default().src_slck();
    cfg.slck_conf = SlckConfig { src: SlckSrc::SlowRC, freq: Hertz(5) };
    let (clocks, _) = cfg.freeze().unwrap();
    assert_eq!(clocks.slck(), Hertz(32_000));
    assert_eq!(clocks.mck(), Hertz(32_000));
    cfg.slck_conf = SlckConfig { src: SlckSrc::CrystalOscillator, freq: Hertz(5) };
    assert_eq!(cfg.freeze().unwrap().0.slck(), Hertz(32_768));
    cfg.slck_conf = SlckConfig { src: SlckSrc::Bypass, freq: Hertz(5) };
    assert_eq!(cfg.freeze().unwrap().0.mck(), Hertz(5));
}

#[test]
fn plla_from_frequency_needs_a_running_main_clock() {
    let mut cfg = crystal_pll_config();
    cfg.mainck_conf = MainckConfig::default().use_crystal(Hertz(0));
    cfg.plla_conf = PllackConfig::default().from_freq(Hertz(300_000_000));
    assert_eq!(cfg.plla_conf.strategy, ClockCalcStrategy::FromFrequency);
    assert_eq!(cfg.freeze().err(), Some(InvalidConfig));
}

#[test]
fn plla_from_frequency_whole_ratio() {
    assert_eq!(plla_search(12_000_000, 300_000_000), (24, 1));
    let mut cfg = crystal_pll_config();
    cfg.plla_conf = PllackConfig::default().from_freq(Hertz(300_000_000));
    let (clocks, _) = cfg.freeze().unwrap();
    assert_eq!(clocks.plla(), Hertz(300_000_000));
}

#[test]
fn plla_from_frequency_equal_to_main_clock() {
    assert_eq!(plla_search(12_000_000, 12_000_000), (1, 2));
}

#[test]
fn plla_from_frequency_fraction() {
    // 100 MHz = 12 MHz * 25 / 3
    assert_eq!(plla_search(12_000_000, 100_000_000), (24, 3));
    // 7 MHz from 12 MHz: 12 * 7 / 12 is exact
    assert_eq!(plla_search(12_000_000, 7_000_000), (6, 12));
}

#[test]
fn plla_from_frequency_out_of_reach_picks_closest() {
    // above 64 times the main clock the largest multiplier wins
    assert_eq!(plla_search(1_000_000, 100_000_000), (63, 1));
    // below: the smallest output, multiplier 2 over divider 255
    assert_eq!(plla_search(12_000_000, 0), (1, 255));
}

#[test]
fn slow_clock_sources() {
    let cfg = SlckConfig::default();
    assert_eq!(cfg.src, SlckSrc::SlowRC);
    let x = cfg.use_crystal();
    assert_eq!(x.freq, Hertz(32_768));
    let b = x.bypass(Hertz(40_000));
    assert_eq!(b.src, SlckSrc::Bypass);
    assert_eq!(b.use_rc().freq, Hertz(32_000));

    let mut sys = crystal_pll_config();
    sys.slck_conf = b;
    let (clocks, ops) = sys.freeze().unwrap();
    assert_eq!(clocks.slck(), Hertz(40_000));
    assert_eq!(
        ops[0],
        RegOp::Modify { addr: 0x400E_1818, mask: 0xFF10_0000, value: 0xA510_0000 }
    );
    assert_eq!(ops[1], RegOp::Write { addr: 0x400E_1810, value: 0xA500_0008 });
}

#[test]
fn master_prescaler_and_divider_values() {
    let p = [
        (MasterPrescale::Pres1, 1),
        (MasterPrescale::Pres2, 2),
        (MasterPrescale::Pres3, 3),
        (MasterPrescale::Pres4, 4),
        (MasterPrescale::Pres8, 8),
        (MasterPrescale::Pres16, 16),
        (MasterPrescale::Pres32, 32),
        (MasterPrescale::Pres64, 64),
    ];
    for (pres, v) in p {
        assert_eq!(pres.to_value(), v);
    }
    assert_eq!(MasterDivider::Div3.to_value(), 3);
    assert_eq!(MasterDivider::Div4.to_value(), 4);
    assert_eq!(MasterPrescale::Pres3.field(), 7);
    assert_eq!(MasterDivider::Div3.field(), 3);
}

#[test]
fn upll_config_builders() {
    let u = UpllckConfig::default().enable().src_freq(UpllckSrcFreq::SRC16MHz).startup_cycles(3);
    assert!(u.enable);
    assert_eq!(u.startup_cycles, 3);
    assert!(!u.disable().enable);
    let p = PllackConfig::default().startup_cycles(63);
    assert_eq!(p.startup_cycles, 63);
}
