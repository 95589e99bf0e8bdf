//! Clock tree configuration: slow clock, main clock, PLLA, UTMI PLL and
//! master clock, and the frozen frequencies that result.
use vstd::prelude::*;

use crate::plla::{lemma_pll_choice_unique, pll_choice, plla_search};
use crate::regs::{
    RegOp, CKGR_MOR, CKGR_PLLAR, CKGR_UCKR, PMC_MCKR, PMC_SR, SUPC_CR, SUPC_MR, UTMI_CKTRIM,
};
use crate::time::Hertz;

verus! {

/// Frequency of the slow RC oscillator.
pub const SLOW_RC_HZ: u32 = 32_000;
/// Frequency of the slow crystal oscillator.
pub const SLOW_XTAL_HZ: u32 = 32_768;
/// Output of the UTMI PLL once it is locked.
pub const UPLL_HZ: u32 = 480_000_000;

/// The configuration contradicts itself and cannot be applied.
#[derive(Clone, Copy, Debug, PartialEq, Eq, Structural)]
pub struct InvalidConfig;

/// Source of the slow clock.
///
/// The slow clock runs from the internal RC oscillator, from the 32768 Hz
/// crystal oscillator, or from an external clock that bypasses the crystal.
#[derive(Clone, Copy, Debug, PartialEq, Eq, Structural)]
pub enum SlckSrc {
    SlowRC,
    CrystalOscillator,
    Bypass,
}

/// Slow clock configuration.
#[derive(Clone, Copy, Debug, PartialEq, Eq, Structural)]
pub struct SlckConfig {
    pub src: SlckSrc,
    pub freq: Hertz,
}

impl SlckConfig {
    /// Use the slow RC oscillator.
    pub fn use_rc(self) -> (r: Self)
        ensures
            r == (SlckConfig { src: SlckSrc::SlowRC, freq: Hertz(SLOW_RC_HZ) }),
    {
        SlckConfig { src: SlckSrc::SlowRC, freq: Hertz(SLOW_RC_HZ) }
    }

    /// Use the more precise crystal oscillator.
    pub fn use_crystal(self) -> (r: Self)
        ensures
            r == (SlckConfig { src: SlckSrc::CrystalOscillator, freq: Hertz(SLOW_XTAL_HZ) }),
    {
        SlckConfig { src: SlckSrc::CrystalOscillator, freq: Hertz(SLOW_XTAL_HZ) }
    }

    /// Bypass the crystal and use an external clock of frequency `freq`.
    pub fn bypass(self, freq: Hertz) -> (r: Self)
        ensures
            r == (SlckConfig { src: SlckSrc::Bypass, freq }),
    {
        SlckConfig { src: SlckSrc::Bypass, freq }
    }
}

impl Default for SlckConfig {
    fn default() -> (r: SlckConfig)
        ensures
            r == (SlckConfig { src: SlckSrc::SlowRC, freq: Hertz(SLOW_RC_HZ) }),
    {
        SlckConfig { src: SlckSrc::SlowRC, freq: Hertz(SLOW_RC_HZ) }
    }
}

/// Source of the main clock.
#[derive(Clone, Copy, Debug, PartialEq, Eq, Structural)]
pub enum MainckSrc {
    MainRC,
    MainCrystalOscillator,
    Bypass,
}

/// Frequency of the main RC oscillator.
#[derive(Clone, Copy, Debug, PartialEq, Eq, Structural)]
pub enum MainRcFreq {
    Freq4Mhz,
    Freq8Mhz,
    Freq12Mhz,
}

impl MainRcFreq {
    /// The frequency in hertz.
    pub open spec fn spec_hz(self) -> u32 {
        match self {
            MainRcFreq::Freq4Mhz => 4_000_000,
            MainRcFreq::Freq8Mhz => 8_000_000,
            MainRcFreq::Freq12Mhz => 12_000_000,
        }
    }

    /// The frequency in hertz.
    pub fn hz(self) -> (r: u32)
        ensures
            r == self.spec_hz(),
    {
        match self {
            MainRcFreq::Freq4Mhz => 4_000_000,
            MainRcFreq::Freq8Mhz => 8_000_000,
            MainRcFreq::Freq12Mhz => 12_000_000,
        }
    }

    /// The value of the frequency field of the main oscillator register.
    pub open spec fn spec_field(self) -> u32 {
        match self {
            MainRcFreq::Freq4Mhz => 0,
            MainRcFreq::Freq8Mhz => 1,
            MainRcFreq::Freq12Mhz => 2,
        }
    }

    /// The value of the frequency field of the main oscillator register.
    pub fn field(self) -> (r: u32)
        ensures
            r == self.spec_field(),
    {
        match self {
            MainRcFreq::Freq4Mhz => 0,
            MainRcFreq::Freq8Mhz => 1,
            MainRcFreq::Freq12Mhz => 2,
        }
    }
}

/// Main clock configuration.
#[derive(Clone, Copy, Debug, PartialEq, Eq, Structural)]
pub struct MainckConfig {
    pub rc_on: bool,
    pub crystal_on: bool,
    pub rc_freq: MainRcFreq,
    /// Frequency of the crystal or of the bypassing clock.
    pub freq: Hertz,
    pub src: MainckSrc,
    /// Slow clock cycles, times eight, to wait for the crystal to stabilize.
    pub startup_cycles: u8,
}

impl MainckConfig {
    /// Use the RC oscillator at 4 MHz.
    pub fn use_rc_4mhz(self) -> (r: Self)
        ensures
            r == (MainckConfig { src: MainckSrc::MainRC, rc_on: true, rc_freq: MainRcFreq::Freq4Mhz, ..self }),
    {
        MainckConfig { src: MainckSrc::MainRC, rc_on: true, rc_freq: MainRcFreq::Freq4Mhz, ..self }
    }

    /// Use the RC oscillator at 8 MHz.
    pub fn use_rc_8mhz(self) -> (r: Self)
        ensures
            r == (MainckConfig { src: MainckSrc::MainRC, rc_on: true, rc_freq: MainRcFreq::Freq8Mhz, ..self }),
    {
        MainckConfig { src: MainckSrc::MainRC, rc_on: true, rc_freq: MainRcFreq::Freq8Mhz, ..self }
    }

    /// Use the RC oscillator at 12 MHz.
    pub fn use_rc_12mhz(self) -> (r: Self)
        ensures
            r == (MainckConfig { src: MainckSrc::MainRC, rc_on: true, rc_freq: MainRcFreq::Freq12Mhz, ..self }),
    {
        MainckConfig { src: MainckSrc::MainRC, rc_on: true, rc_freq: MainRcFreq::Freq12Mhz, ..self }
    }

    /// Disable the RC oscillator.
    pub fn disable_rc(self) -> (r: Self)
        ensures
            r == (MainckConfig { rc_on: false, ..self }),
    {
        MainckConfig { rc_on: false, ..self }
    }

    /// Use the crystal oscillator, which the board drives at `freq`.
    pub fn use_crystal(self, freq: Hertz) -> (r: Self)
        ensures
            r == (MainckConfig { src: MainckSrc::MainCrystalOscillator, freq, crystal_on: true, ..self }),
    {
        MainckConfig { src: MainckSrc::MainCrystalOscillator, freq, crystal_on: true, ..self }
    }

    /// Disable the crystal oscillator.
    pub fn disable_crystal(self) -> (r: Self)
        ensures
            r == (MainckConfig { crystal_on: false, ..self }),
    {
        MainckConfig { crystal_on: false, ..self }
    }

    /// Bypass the crystal and use an external clock of frequency `freq`.
    pub fn bypass(self, freq: Hertz) -> (r: Self)
        ensures
            r == (MainckConfig { src: MainckSrc::Bypass, freq, crystal_on: false, ..self }),
    {
        MainckConfig { src: MainckSrc::Bypass, freq, crystal_on: false, ..self }
    }

    /// Slow clock cycle count (times eight) to wait for the crystal to stabilize.
    pub fn startup_cycles(self, cycles: u8) -> (r: Self)
        ensures
            r == (MainckConfig { startup_cycles: cycles, ..self }),
    {
        MainckConfig { startup_cycles: cycles, ..self }
    }
}

impl Default for MainckConfig {
    fn default() -> (r: MainckConfig)
        ensures
            r == (MainckConfig {
                src: MainckSrc::MainRC,
                rc_freq: MainRcFreq::Freq12Mhz,
                rc_on: true,
                crystal_on: false,
                freq: Hertz(12_000_000),
                startup_cycles: 100,
            }),
    {
        MainckConfig {
            src: MainckSrc::MainRC,
            rc_freq: MainRcFreq::Freq12Mhz,
            rc_on: true,
            crystal_on: false,
            freq: Hertz(12_000_000),
            startup_cycles: 100,
        }
    }
}

/// How the PLLA multiplier and divider are obtained.
#[derive(Clone, Copy, Debug, PartialEq, Eq, Structural)]
pub enum ClockCalcStrategy {
    /// Search the pair whose output comes closest to a target frequency.
    FromFrequency,
    /// Take the pair as given.
    FromDivider,
}

/// PLLA configuration.
///
/// With `FromDivider` and a multiplier field of zero the PLL stays off.
#[derive(Clone, Copy, Debug, PartialEq, Eq, Structural)]
pub struct PllackConfig {
    /// Target frequency, for `FromFrequency`.
    pub freq: Hertz,
    pub diva: u8,
    /// The multiplier field: the PLL multiplies by `mula + 1`.
    pub mula: u16,
    pub strategy: ClockCalcStrategy,
    pub startup_cycles: u8,
}

impl PllackConfig {
    /// Configure PLLA to come as close as it can to `freq`.
    pub fn from_freq(self, freq: Hertz) -> (r: Self)
        ensures
            r == (PllackConfig { freq, diva: 0, mula: 0, strategy: ClockCalcStrategy::FromFrequency, ..self }),
    {
        PllackConfig { freq, diva: 0, mula: 0, strategy: ClockCalcStrategy::FromFrequency, ..self }
    }

    /// Configure PLLA with a given divider and multiplier field.
    pub fn from_divider(self, diva: u8, mula: u16) -> (r: Self)
        ensures
            r == (PllackConfig { freq: Hertz(0), diva, mula, strategy: ClockCalcStrategy::FromDivider, ..self }),
    {
        PllackConfig { freq: Hertz(0), diva, mula, strategy: ClockCalcStrategy::FromDivider, ..self }
    }

    /// Slow clock cycle count (times eight) to wait for the PLL to lock.
    pub fn startup_cycles(self, cycles: u8) -> (r: Self)
        ensures
            r == (PllackConfig { startup_cycles: cycles, ..self }),
    {
        PllackConfig { startup_cycles: cycles, ..self }
    }
}

impl Default for PllackConfig {
    /// PLLA off: no sensible frequency can be assumed.
    fn default() -> (r: PllackConfig)
        ensures
            r == (PllackConfig {
                freq: Hertz(0),
                diva: 0,
                mula: 0,
                strategy: ClockCalcStrategy::FromDivider,
                startup_cycles: 0,
            }),
    {
        PllackConfig {
            freq: Hertz(0),
            diva: 0,
            mula: 0,
            strategy: ClockCalcStrategy::FromDivider,
            startup_cycles: 0,
        }
    }
}

/// Reference frequency of the UTMI PLL.
#[derive(Clone, Copy, Debug, PartialEq, Eq, Structural)]
pub enum UpllckSrcFreq {
    SRC12MHz,
    SRC16MHz,
}

/// UTMI PLL configuration.
#[derive(Clone, Copy, Debug, PartialEq, Eq, Structural)]
pub struct UpllckConfig {
    pub src: UpllckSrcFreq,
    pub startup_cycles: u8,
    pub enable: bool,
}

impl UpllckConfig {
    /// Turn the PLL on.
    pub fn enable(self) -> (r: Self)
        ensures
            r == (UpllckConfig { enable: true, ..self }),
    {
        UpllckConfig { enable: true, ..self }
    }

    /// Turn the PLL off.
    pub fn disable(self) -> (r: Self)
        ensures
            r == (UpllckConfig { enable: false, ..self }),
    {
        UpllckConfig { enable: false, ..self }
    }

    /// Select the reference frequency.
    pub fn src_freq(self, src: UpllckSrcFreq) -> (r: Self)
        ensures
            r == (UpllckConfig { src, ..self }),
    {
        UpllckConfig { src, ..self }
    }

    /// Slow clock cycle count (times eight) to wait for the PLL to lock.
    pub fn startup_cycles(self, cycles: u8) -> (r: Self)
        ensures
            r == (UpllckConfig { startup_cycles: cycles, ..self }),
    {
        UpllckConfig { startup_cycles: cycles, ..self }
    }
}

impl Default for UpllckConfig {
    fn default() -> (r: UpllckConfig)
        ensures
            r == (UpllckConfig { src: UpllckSrcFreq::SRC12MHz, startup_cycles: 0, enable: false }),
    {
        UpllckConfig { src: UpllckSrcFreq::SRC12MHz, startup_cycles: 0, enable: false }
    }
}

/// Source of the master clock.
#[derive(Clone, Copy, Debug, PartialEq, Eq, Structural)]
pub enum MasterClockSrc {
    SLCK,
    MAINCK,
    PLLACK,
    UPLLCKDIV,
}

/// Processor clock prescaler.
#[derive(Clone, Copy, Debug, PartialEq, Eq, Structural)]
pub enum MasterPrescale {
    Pres1,
    Pres2,
    Pres3,
    Pres4,
    Pres8,
    Pres16,
    Pres32,
    Pres64,
}

impl MasterPrescale {
    /// The division factor.
    pub open spec fn spec_value(self) -> u32 {
        match self {
            MasterPrescale::Pres1 => 1,
            MasterPrescale::Pres2 => 2,
            MasterPrescale::Pres3 => 3,
            MasterPrescale::Pres4 => 4,
            MasterPrescale::Pres8 => 8,
            MasterPrescale::Pres16 => 16,
            MasterPrescale::Pres32 => 32,
            MasterPrescale::Pres64 => 64,
        }
    }

    /// The division factor.
    pub fn to_value(&self) -> (r: u32)
        ensures
            r == self.spec_value(),
            1 <= r <= 64,
    {
        match self {
            MasterPrescale::Pres1 => 1,
            MasterPrescale::Pres2 => 2,
            MasterPrescale::Pres3 => 3,
            MasterPrescale::Pres4 => 4,
            MasterPrescale::Pres8 => 8,
            MasterPrescale::Pres16 => 16,
            MasterPrescale::Pres32 => 32,
            MasterPrescale::Pres64 => 64,
        }
    }

    /// The value of the prescaler field of the master clock register.
    pub open spec fn spec_field(self) -> u32 {
        match self {
            MasterPrescale::Pres1 => 0,
            MasterPrescale::Pres2 => 1,
            MasterPrescale::Pres4 => 2,
            MasterPrescale::Pres8 => 3,
            MasterPrescale::Pres16 => 4,
            MasterPrescale::Pres32 => 5,
            MasterPrescale::Pres64 => 6,
            MasterPrescale::Pres3 => 7,
        }
    }

    /// The value of the prescaler field of the master clock register.
    pub fn field(&self) -> (r: u32)
        ensures
            r == self.spec_field(),
    {
        match self {
            MasterPrescale::Pres1 => 0,
            MasterPrescale::Pres2 => 1,
            MasterPrescale::Pres4 => 2,
            MasterPrescale::Pres8 => 3,
            MasterPrescale::Pres16 => 4,
            MasterPrescale::Pres32 => 5,
            MasterPrescale::Pres64 => 6,
            MasterPrescale::Pres3 => 7,
        }
    }
}

/// Divider from the processor clock to the peripheral (master) clock.
#[derive(Clone, Copy, Debug, PartialEq, Eq, Structural)]
pub enum MasterDivider {
    Div1,
    Div2,
    Div3,
    Div4,
}

impl MasterDivider {
    /// The division factor.
    pub open spec fn spec_value(self) -> u32 {
        match self {
            MasterDivider::Div1 => 1,
            MasterDivider::Div2 => 2,
            MasterDivider::Div3 => 3,
            MasterDivider::Div4 => 4,
        }
    }

    /// The division factor.
    pub fn to_value(&self) -> (r: u32)
        ensures
            r == self.spec_value(),
            1 <= r <= 4,
    {
        match self {
            MasterDivider::Div1 => 1,
            MasterDivider::Div2 => 2,
            MasterDivider::Div3 => 3,
            MasterDivider::Div4 => 4,
        }
    }

    /// The value of the divider field of the master clock register.
    pub open spec fn spec_field(self) -> u32 {
        match self {
            MasterDivider::Div1 => 0,
            MasterDivider::Div2 => 1,
            MasterDivider::Div4 => 2,
            MasterDivider::Div3 => 3,
        }
    }

    /// The value of the divider field of the master clock register.
    pub fn field(&self) -> (r: u32)
        ensures
            r == self.spec_field(),
    {
        match self {
            MasterDivider::Div1 => 0,
            MasterDivider::Div2 => 1,
            MasterDivider::Div4 => 2,
            MasterDivider::Div3 => 3,
        }
    }
}

/// Divider of the UTMI PLL output on its way to the master clock.
#[derive(Clone, Copy, Debug, PartialEq, Eq, Structural)]
pub enum UpllDiv {
    Div1,
    Div2,
}

/// Master clock configuration: the clock that drives the CPU and peripherals.
#[derive(Clone, Copy, Debug, PartialEq, Eq, Structural)]
pub struct MasterClockConfig {
    pub src: MasterClockSrc,
    pub pres: MasterPrescale,
    pub mdiv: MasterDivider,
    pub uplldiv: UpllDiv,
}

impl MasterClockConfig {
    /// Select the slow clock as source.
    pub fn src_slck(self) -> (r: Self)
        ensures
            r == (MasterClockConfig { src: MasterClockSrc::SLCK, ..self }),
    {
        MasterClockConfig { src: MasterClockSrc::SLCK, ..self }
    }

    /// Select the main clock as source.
    pub fn src_mainck(self) -> (r: Self)
        ensures
            r == (MasterClockConfig { src: MasterClockSrc::MAINCK, ..self }),
    {
        MasterClockConfig { src: MasterClockSrc::MAINCK, ..self }
    }

    /// Select the PLLA clock as source.
    pub fn src_pllack(self) -> (r: Self)
        ensures
            r == (MasterClockConfig { src: MasterClockSrc::PLLACK, ..self }),
    {
        MasterClockConfig { src: MasterClockSrc::PLLACK, ..self }
    }

    /// Select the divided UTMI PLL clock as source.
    pub fn src_upllckdiv(self) -> (r: Self)
        ensures
            r == (MasterClockConfig { src: MasterClockSrc::UPLLCKDIV, ..self }),
    {
        MasterClockConfig { src: MasterClockSrc::UPLLCKDIV, ..self }
    }

    /// Set the divider of the UTMI PLL clock.
    pub fn set_uplldiv(self, div: UpllDiv) -> (r: Self)
        ensures
            r == (MasterClockConfig { uplldiv: div, ..self }),
    {
        MasterClockConfig { uplldiv: div, ..self }
    }

    /// Set the prescaler of the processor clock and the divider of the
    /// peripheral clock.
    pub fn from_divider(self, pres: MasterPrescale, mdiv: MasterDivider) -> (r: Self)
        ensures
            r == (MasterClockConfig { pres, mdiv, ..self }),
    {
        MasterClockConfig { pres, mdiv, ..self }
    }
}

impl Default for MasterClockConfig {
    fn default() -> (r: MasterClockConfig)
        ensures
            r == (MasterClockConfig {
                src: MasterClockSrc::MAINCK,
                pres: MasterPrescale::Pres1,
                mdiv: MasterDivider::Div1,
                uplldiv: UpllDiv::Div1,
            }),
    {
        MasterClockConfig {
            src: MasterClockSrc::MAINCK,
            pres: MasterPrescale::Pres1,
            mdiv: MasterDivider::Div1,
            uplldiv: UpllDiv::Div1,
        }
    }
}

/// Key that the main oscillator register needs for a write to take effect.
pub const MOR_KEY: u32 = 0x37 << 16;
/// Mask of the key field of the main oscillator register.
pub const MOR_KEY_MASK: u32 = 0xFF << 16;
/// Main crystal oscillator enable.
pub const MOSCXTEN: u32 = 1 << 0;
/// Main crystal oscillator bypass.
pub const MOSCXTBY: u32 = 1 << 1;
/// Main RC oscillator enable.
pub const MOSCRCEN: u32 = 1 << 3;
/// Main RC oscillator frequency field.
pub const MOSCRCF_MASK: u32 = 0x7 << 4;
/// Main crystal oscillator startup time field.
pub const MOSCXTST_MASK: u32 = 0xFF << 8;
/// Main clock source select: set for the crystal or its bypass.
pub const MOSCSEL: u32 = 1 << 24;

/// Status: main crystal oscillator stabilized.
pub const SR_MOSCXTS: u32 = 1 << 0;
/// Status: PLLA locked.
pub const SR_LOCKA: u32 = 1 << 1;
/// Status: master clock ready.
pub const SR_MCKRDY: u32 = 1 << 3;
/// Status: UTMI PLL locked.
pub const SR_LOCKU: u32 = 1 << 6;
/// Status: main clock source switch complete.
pub const SR_MOSCSELS: u32 = 1 << 16;
/// Status: main RC oscillator stabilized.
pub const SR_MOSCRCS: u32 = 1 << 17;

/// Bit 29 of the PLLA register must be written as one.
pub const PLLAR_ONE: u32 = 1 << 29;
/// UTMI PLL enable.
pub const UPLLEN: u32 = 1 << 16;

/// Master clock source field.
pub const MCKR_CSS_MASK: u32 = 0x3;
/// Processor clock prescaler field.
pub const MCKR_PRES_MASK: u32 = 0x7 << 4;
/// Master clock divider field.
pub const MCKR_MDIV_MASK: u32 = 0x3 << 8;
/// Divides the UTMI PLL clock by two on its way to the master clock.
pub const MCKR_UPLLDIV2: u32 = 1 << 13;

/// Key that the supply controller registers need for a write to take effect.
pub const SUPC_KEY: u32 = 0xA5 << 24;
/// Mask of the key field of the supply controller registers.
pub const SUPC_KEY_MASK: u32 = 0xFF << 24;
/// Selects the slow crystal oscillator (or its bypass) for the slow clock.
pub const SUPC_XTALSEL: u32 = 1 << 3;
/// Bypasses the slow crystal oscillator.
pub const SUPC_OSCBYPASS: u32 = 1 << 20;

impl MasterClockSrc {
    /// The value of the source field of the master clock register.
    pub open spec fn spec_field(self) -> u32 {
        match self {
            MasterClockSrc::SLCK => 0,
            MasterClockSrc::MAINCK => 1,
            MasterClockSrc::PLLACK => 2,
            MasterClockSrc::UPLLCKDIV => 3,
        }
    }

    /// The value of the source field of the master clock register.
    pub fn field(&self) -> (r: u32)
        ensures
            r == self.spec_field(),
    {
        match self {
            MasterClockSrc::SLCK => 0,
            MasterClockSrc::MAINCK => 1,
            MasterClockSrc::PLLACK => 2,
            MasterClockSrc::UPLLCKDIV => 3,
        }
    }
}

/// A masked write to the main oscillator register, with its key.
pub open spec fn mor_op(mask: u32, value: u32) -> RegOp {
    RegOp::Modify { addr: CKGR_MOR, mask: MOR_KEY_MASK | mask, value: MOR_KEY | value }
}

/// A wait for the bits `mask` of the power management status register.
pub open spec fn pmc_wait(mask: u32) -> RegOp {
    RegOp::WaitSet { addr: PMC_SR, mask }
}

/// A masked write to the master clock register, then a wait for it to settle.
pub open spec fn mckr_ops(mask: u32, value: u32) -> Seq<RegOp> {
    seq![RegOp::Modify { addr: PMC_MCKR, mask, value }, pmc_wait(SR_MCKRDY)]
}

/// The main clock frequency a configuration selects.
pub open spec fn spec_mainck_hz(c: MainckConfig) -> u32 {
    match c.src {
        MainckSrc::MainRC => c.rc_freq.spec_hz(),
        _ => c.freq.0,
    }
}

/// The main clock source that a configuration selects is one it keeps on.
pub open spec fn spec_mainck_valid(c: MainckConfig) -> bool {
    match c.src {
        MainckSrc::MainRC => c.rc_on,
        MainckSrc::MainCrystalOscillator => c.crystal_on,
        MainckSrc::Bypass => !c.crystal_on,
    }
}

/// The multiplier field and divider that PLLA is programmed with, when
/// the configuration allows any.
pub open spec fn spec_plla_setting(p: PllackConfig, mainck: u32) -> Option<(u16, u8)> {
    match p.strategy {
        ClockCalcStrategy::FromDivider => {
            if p.mula == 0 {
                Some((0u16, p.diva))
            } else if p.mula <= 63 && p.diva >= 1 {
                Some((p.mula, p.diva))
            } else {
                None
            }
        },
        ClockCalcStrategy::FromFrequency => {
            if mainck == 0 {
                None
            } else {
                Some(
                    choose|pair: (u16, u8)|
                        pll_choice(mainck as int, p.freq.0 as int, pair.0 as int, pair.1 as int),
                )
            }
        },
    }
}

/// The PLLA output for a multiplier field and divider: off (zero) for a
/// multiplier field of zero.
pub open spec fn spec_pll_out(mainck: u32, mula: u16, diva: u8) -> int {
    if mula == 0 {
        0
    } else {
        mainck * (mula + 1) / (diva as int)
    }
}

/// The PLLA output for a (multiplier field, divider) pair.
pub open spec fn spec_pair_out(mainck: u32, pair: (u16, u8)) -> int {
    spec_pll_out(mainck, pair.0, pair.1)
}

/// The configuration has no contradiction and every frequency fits a word.
pub open spec fn spec_config_valid(c: SystemClockConfig) -> bool {
    let mainck = spec_mainck_hz(c.mainck_conf);
    let setting = spec_plla_setting(c.plla_conf, mainck);
    &&& spec_mainck_valid(c.mainck_conf)
    &&& setting is Some
    &&& spec_pair_out(mainck, setting->0) <= u32::MAX
    &&& spec_master_src_running(c, setting->0)
}

/// The master clock is not switched to a PLL that the configuration keeps
/// off: PLLA needs a multiplier field other than zero, the UTMI PLL needs
/// to be enabled.
pub open spec fn spec_master_src_running(c: SystemClockConfig, pll: (u16, u8)) -> bool {
    &&& c.mck_conf.src == MasterClockSrc::PLLACK ==> pll.0 != 0
    &&& c.mck_conf.src == MasterClockSrc::UPLLCKDIV ==> c.upll_conf.enable
}

/// The slow clock frequency of its source: the RC oscillator, the 32768 Hz
/// crystal, or the frequency declared for the bypassing clock.
pub open spec fn spec_slck_hz(c: SlckConfig) -> u32 {
    match c.src {
        SlckSrc::SlowRC => SLOW_RC_HZ,
        SlckSrc::CrystalOscillator => SLOW_XTAL_HZ,
        SlckSrc::Bypass => c.freq.0,
    }
}

/// The slow clock frequency of its source.
fn slck_hz(c: &SlckConfig) -> (r: u32)
    ensures
        r == spec_slck_hz(*c),
{
    match c.src {
        SlckSrc::SlowRC => SLOW_RC_HZ,
        SlckSrc::CrystalOscillator => SLOW_XTAL_HZ,
        SlckSrc::Bypass => c.freq.0,
    }
}

/// The PLLA frequency of a valid configuration.
pub open spec fn spec_plla_hz(c: SystemClockConfig) -> u32 {
    let mainck = spec_mainck_hz(c.mainck_conf);
    let s = spec_plla_setting(c.plla_conf, mainck)->0;
    spec_pll_out(mainck, s.0, s.1) as u32
}

/// The UTMI PLL frequency.
pub open spec fn spec_upll_hz(c: SystemClockConfig) -> u32 {
    if c.upll_conf.enable {
        UPLL_HZ
    } else {
        0
    }
}

/// The divided UTMI PLL frequency.
pub open spec fn spec_uplldiv_hz(c: SystemClockConfig) -> u32 {
    match c.mck_conf.uplldiv {
        UpllDiv::Div1 => spec_upll_hz(c),
        UpllDiv::Div2 => spec_upll_hz(c) / 2,
    }
}

/// The frequency of the source the master clock is switched to.
pub open spec fn spec_master_src_hz(c: SystemClockConfig) -> u32 {
    match c.mck_conf.src {
        MasterClockSrc::SLCK => spec_slck_hz(c.slck_conf),
        MasterClockSrc::MAINCK => spec_mainck_hz(c.mainck_conf),
        MasterClockSrc::PLLACK => spec_plla_hz(c),
        MasterClockSrc::UPLLCKDIV => spec_uplldiv_hz(c),
    }
}

/// The processor clock: master source over the prescaler.
pub open spec fn spec_processor_hz(c: SystemClockConfig) -> u32 {
    (spec_master_src_hz(c) / c.mck_conf.pres.spec_value()) as u32
}

/// The peripheral (master) clock: source over the prescaler over the divider.
pub open spec fn spec_mck_hz(c: SystemClockConfig) -> u32 {
    (spec_master_src_hz(c) / c.mck_conf.pres.spec_value() / c.mck_conf.mdiv.spec_value()) as u32
}

/// Register accesses that switch the slow clock.
pub open spec fn spec_slck_ops(c: SlckConfig) -> Seq<RegOp> {
    let select = RegOp::Write { addr: SUPC_CR, value: SUPC_KEY | SUPC_XTALSEL };
    match c.src {
        SlckSrc::SlowRC => seq![],
        SlckSrc::CrystalOscillator => seq![select],
        SlckSrc::Bypass => seq![
            RegOp::Modify {
                addr: SUPC_MR,
                mask: SUPC_KEY_MASK | SUPC_OSCBYPASS,
                value: SUPC_KEY | SUPC_OSCBYPASS,
            },
            select,
        ],
    }
}

/// Register accesses that start the oscillators the main clock keeps on.
pub open spec fn spec_osc_ops(c: MainckConfig) -> Seq<RegOp> {
    (if c.rc_on {
        seq![
            mor_op(MOSCRCEN, MOSCRCEN),
            pmc_wait(SR_MOSCRCS),
            mor_op(MOSCRCF_MASK, c.rc_freq.spec_field() << 4),
            pmc_wait(SR_MOSCRCS),
        ]
    } else {
        seq![]
    }) + (if c.crystal_on {
        seq![
            mor_op(MOSCXTST_MASK | MOSCXTEN, ((c.startup_cycles as u32) << 8) | MOSCXTEN),
            pmc_wait(SR_MOSCXTS),
        ]
    } else {
        seq![]
    })
}

/// Register accesses that select the main clock source, then stop the
/// oscillators the configuration turns off.
pub open spec fn spec_select_ops(c: MainckConfig) -> Seq<RegOp> {
    (match c.src {
        MainckSrc::MainRC => seq![mor_op(MOSCSEL, 0), pmc_wait(SR_MOSCSELS)],
        MainckSrc::MainCrystalOscillator => seq![mor_op(MOSCSEL, MOSCSEL), pmc_wait(SR_MOSCSELS)],
        MainckSrc::Bypass => seq![
            mor_op(MOSCXTBY | MOSCXTEN, MOSCXTBY),
            mor_op(MOSCSEL, MOSCSEL),
            pmc_wait(SR_MOSCSELS),
        ],
    }) + (if !c.rc_on {
        seq![mor_op(MOSCRCEN, 0)]
    } else {
        seq![]
    }) + (if !c.crystal_on {
        seq![mor_op(MOSCXTEN, 0)]
    } else {
        seq![]
    })
}

/// Register accesses that program PLLA and wait for it to lock when it is on.
pub open spec fn spec_plla_ops(mula: u16, diva: u8, startup: u8) -> Seq<RegOp> {
    let value = PLLAR_ONE | ((mula as u32) << 16) | (((startup as u32) & 0x3F) << 8) | (diva as u32);
    seq![RegOp::Write { addr: CKGR_PLLAR, value }] + if mula != 0 {
        seq![pmc_wait(SR_LOCKA)]
    } else {
        seq![]
    }
}

/// Register accesses that configure the UTMI PLL.
pub open spec fn spec_upll_ops(u: UpllckConfig) -> Seq<RegOp> {
    if !u.enable {
        seq![RegOp::Modify { addr: CKGR_UCKR, mask: UPLLEN, value: 0 }]
    } else {
        seq![
            RegOp::Write {
                addr: UTMI_CKTRIM,
                value: match u.src {
                    UpllckSrcFreq::SRC12MHz => 0,
                    UpllckSrcFreq::SRC16MHz => 1,
                },
            },
            RegOp::Write { addr: CKGR_UCKR, value: (((u.startup_cycles as u32) & 0xF) << 20) | UPLLEN },
            pmc_wait(SR_LOCKU),
        ]
    }
}

/// Register accesses that set the master clock dividers, then its source,
/// waiting for the clock to settle after each.
pub open spec fn spec_mck_ops(m: MasterClockConfig) -> Seq<RegOp> {
    mckr_ops(
        MCKR_UPLLDIV2,
        match m.uplldiv {
            UpllDiv::Div1 => 0,
            UpllDiv::Div2 => MCKR_UPLLDIV2,
        },
    ) + mckr_ops(
        MCKR_PRES_MASK | MCKR_MDIV_MASK,
        (m.pres.spec_field() << 4) | (m.mdiv.spec_field() << 8),
    ) + mckr_ops(MCKR_CSS_MASK, m.src.spec_field())
}

/// Configuration of every clock domain.
#[derive(Clone, Copy, Debug, PartialEq, Eq, Structural)]
pub struct SystemClockConfig {
    pub slck_conf: SlckConfig,
    pub mainck_conf: MainckConfig,
    pub plla_conf: PllackConfig,
    pub upll_conf: UpllckConfig,
    pub mck_conf: MasterClockConfig,
}

/// Frozen clock frequencies.
///
/// A value of this type stands for a clock tree that has been programmed
/// and must not change any more; zero stands for a clock that is off.
#[derive(Clone, Copy, Debug, PartialEq, Eq, Structural)]
pub struct Clocks {
    hclk: Hertz,
    sys_tick: Hertz,
    fclk: Hertz,
    mck: Hertz,
    slck: Hertz,
    mainck: Hertz,
    plla: Hertz,
    uplldiv: Hertz,
    upll: Hertz,
}

impl Clocks {
    /// Processor clock frequency.
    pub closed spec fn spec_hclk(&self) -> u32 {
        self.hclk.0
    }

    /// SysTick frequency.
    pub closed spec fn spec_sys_tick(&self) -> u32 {
        self.sys_tick.0
    }

    /// Free running processor clock frequency.
    pub closed spec fn spec_fclk(&self) -> u32 {
        self.fclk.0
    }

    /// Master (peripheral) clock frequency.
    pub closed spec fn spec_mck(&self) -> u32 {
        self.mck.0
    }

    /// Slow clock frequency.
    pub closed spec fn spec_slck(&self) -> u32 {
        self.slck.0
    }

    /// Main clock frequency.
    pub closed spec fn spec_mainck(&self) -> u32 {
        self.mainck.0
    }

    /// PLLA frequency.
    pub closed spec fn spec_plla(&self) -> u32 {
        self.plla.0
    }

    /// Divided UTMI PLL frequency.
    pub closed spec fn spec_uplldiv(&self) -> u32 {
        self.uplldiv.0
    }

    /// UTMI PLL (USB) frequency.
    pub closed spec fn spec_upll(&self) -> u32 {
        self.upll.0
    }

    /// Returns the processor clock frequency.
    pub fn hclk(&self) -> (r: Hertz)
        ensures
            r.0 == self.spec_hclk(),
    {
        self.hclk
    }

    /// Returns the SysTick frequency.
    pub fn sys_tick(&self) -> (r: Hertz)
        ensures
            r.0 == self.spec_sys_tick(),
    {
        self.sys_tick
    }

    /// Returns the free running processor clock frequency.
    pub fn fclk(&self) -> (r: Hertz)
        ensures
            r.0 == self.spec_fclk(),
    {
        self.fclk
    }

    /// Returns the master (peripheral) clock frequency.
    pub fn mck(&self) -> (r: Hertz)
        ensures
            r.0 == self.spec_mck(),
    {
        self.mck
    }

    /// Returns the slow clock frequency.
    pub fn slck(&self) -> (r: Hertz)
        ensures
            r.0 == self.spec_slck(),
    {
        self.slck
    }

    /// Returns the main clock frequency.
    pub fn mainck(&self) -> (r: Hertz)
        ensures
            r.0 == self.spec_mainck(),
    {
        self.mainck
    }

    /// Returns the PLLA frequency.
    pub fn plla(&self) -> (r: Hertz)
        ensures
            r.0 == self.spec_plla(),
    {
        self.plla
    }

    /// Returns the divided UTMI PLL frequency.
    pub fn uplldiv(&self) -> (r: Hertz)
        ensures
            r.0 == self.spec_uplldiv(),
    {
        self.uplldiv
    }

    /// Returns the UTMI PLL (USB) frequency.
    pub fn upll(&self) -> (r: Hertz)
        ensures
            r.0 == self.spec_upll(),
    {
        self.upll
    }
}

/// Every register access that freezing a valid configuration makes, in order.
pub open spec fn spec_clock_ops(c: SystemClockConfig) -> Seq<RegOp> {
    let setting = spec_plla_setting(c.plla_conf, spec_mainck_hz(c.mainck_conf))->0;
    spec_slck_ops(c.slck_conf) + spec_osc_ops(c.mainck_conf) + spec_select_ops(c.mainck_conf)
        + spec_plla_ops(setting.0, setting.1, c.plla_conf.startup_cycles) + spec_upll_ops(
        c.upll_conf,
    ) + spec_mck_ops(c.mck_conf)
}

fn mor(mask: u32, value: u32) -> (r: RegOp)
    ensures
        r == mor_op(mask, value),
{
    RegOp::Modify { addr: CKGR_MOR, mask: MOR_KEY_MASK | mask, value: MOR_KEY | value }
}

fn wait(mask: u32) -> (r: RegOp)
    ensures
        r == pmc_wait(mask),
{
    RegOp::WaitSet { addr: PMC_SR, mask }
}

fn push_mckr(ops: &mut Vec<RegOp>, mask: u32, value: u32)
    ensures
        final(ops)@ == old(ops)@ + mckr_ops(mask, value),
{
    ops.push(RegOp::Modify { addr: PMC_MCKR, mask, value });
    ops.push(wait(SR_MCKRDY));
    assert(final(ops)@ =~= old(ops)@ + mckr_ops(mask, value));
}

fn slck_ops(c: &SlckConfig) -> (r: Vec<RegOp>)
    ensures
        r@ == spec_slck_ops(*c),
{
    let select = RegOp::Write { addr: SUPC_CR, value: SUPC_KEY | SUPC_XTALSEL };
    let mut ops: Vec<RegOp> = Vec::new();
    match c.src {
        SlckSrc::SlowRC => {},
        SlckSrc::CrystalOscillator => {
            ops.push(select);
        },
        SlckSrc::Bypass => {
            ops.push(
                RegOp::Modify {
                    addr: SUPC_MR,
                    mask: SUPC_KEY_MASK | SUPC_OSCBYPASS,
                    value: SUPC_KEY | SUPC_OSCBYPASS,
                },
            );
            ops.push(select);
        },
    }
    assert(ops@ =~= spec_slck_ops(*c));
    ops
}

fn osc_ops(c: &MainckConfig) -> (r: Vec<RegOp>)
    ensures
        r@ == spec_osc_ops(*c),
{
    let mut ops: Vec<RegOp> = Vec::new();
    if c.rc_on {
        ops.push(mor(MOSCRCEN, MOSCRCEN));
        ops.push(wait(SR_MOSCRCS));
        ops.push(mor(MOSCRCF_MASK, c.rc_freq.field() << 4));
        ops.push(wait(SR_MOSCRCS));
    }
    if c.crystal_on {
        ops.push(mor(MOSCXTST_MASK | MOSCXTEN, ((c.startup_cycles as u32) << 8) | MOSCXTEN));
        ops.push(wait(SR_MOSCXTS));
    }
    assert(ops@ =~= spec_osc_ops(*c));
    ops
}

fn select_ops(c: &MainckConfig) -> (r: Vec<RegOp>)
    ensures
        r@ == spec_select_ops(*c),
{
    let mut ops: Vec<RegOp> = Vec::new();
    match c.src {
        MainckSrc::MainRC => {
            ops.push(mor(MOSCSEL, 0));
        },
        MainckSrc::MainCrystalOscillator => {
            ops.push(mor(MOSCSEL, MOSCSEL));
        },
        MainckSrc::Bypass => {
            ops.push(mor(MOSCXTBY | MOSCXTEN, MOSCXTBY));
            ops.push(mor(MOSCSEL, MOSCSEL));
        },
    }
    ops.push(wait(SR_MOSCSELS));
    if !c.rc_on {
        ops.push(mor(MOSCRCEN, 0));
    }
    if !c.crystal_on {
        ops.push(mor(MOSCXTEN, 0));
    }
    assert(ops@ =~= spec_select_ops(*c));
    ops
}

fn plla_ops(mula: u16, diva: u8, startup: u8) -> (r: Vec<RegOp>)
    ensures
        r@ == spec_plla_ops(mula, diva, startup),
{
    let value = PLLAR_ONE | ((mula as u32) << 16) | (((startup as u32) & 0x3F) << 8) | (diva as u32);
    let mut ops: Vec<RegOp> = Vec::new();
    ops.push(RegOp::Write { addr: CKGR_PLLAR, value });
    if mula != 0 {
        ops.push(wait(SR_LOCKA));
    }
    assert(ops@ =~= spec_plla_ops(mula, diva, startup));
    ops
}

fn upll_ops(u: &UpllckConfig) -> (r: Vec<RegOp>)
    ensures
        r@ == spec_upll_ops(*u),
{
    let mut ops: Vec<RegOp> = Vec::new();
    if !u.enable {
        ops.push(RegOp::Modify { addr: CKGR_UCKR, mask: UPLLEN, value: 0 });
    } else {
        let freq: u32 = match u.src {
            UpllckSrcFreq::SRC12MHz => 0,
            UpllckSrcFreq::SRC16MHz => 1,
        };
        ops.push(RegOp::Write { addr: UTMI_CKTRIM, value: freq });
        ops.push(
            RegOp::Write { addr: CKGR_UCKR, value: (((u.startup_cycles as u32) & 0xF) << 20) | UPLLEN },
        );
        ops.push(wait(SR_LOCKU));
    }
    assert(ops@ =~= spec_upll_ops(*u));
    ops
}

fn mck_ops(m: &MasterClockConfig) -> (r: Vec<RegOp>)
    ensures
        r@ == spec_mck_ops(*m),
{
    let mut ops: Vec<RegOp> = Vec::new();
    let div2: u32 = match m.uplldiv {
        UpllDiv::Div1 => 0,
        UpllDiv::Div2 => MCKR_UPLLDIV2,
    };
    push_mckr(&mut ops, MCKR_UPLLDIV2, div2);
    push_mckr(&mut ops, MCKR_PRES_MASK | MCKR_MDIV_MASK, (m.pres.field() << 4) | (m.mdiv.field() << 8));
    push_mckr(&mut ops, MCKR_CSS_MASK, m.src.field());
    assert(ops@ =~= spec_mck_ops(*m));
    ops
}

/// The main clock frequency a configuration selects.
fn mainck_hz(c: &MainckConfig) -> (r: u32)
    ensures
        r == spec_mainck_hz(*c),
{
    match c.src {
        MainckSrc::MainRC => c.rc_freq.hz(),
        _ => c.freq.0,
    }
}

/// The multiplier field and divider that PLLA is programmed with.
fn plla_setting(p: &PllackConfig, mainck: u32) -> (r: Option<(u16, u8)>)
    ensures
        r == spec_plla_setting(*p, mainck),
        r matches Some(pair) ==> pair.0 <= 63 && (pair.0 == 0 || pair.1 >= 1),
{
    match p.strategy {
        ClockCalcStrategy::FromDivider => {
            if p.mula == 0 {
                Some((0, p.diva))
            } else if p.mula <= 63 && p.diva >= 1 {
                Some((p.mula, p.diva))
            } else {
                None
            }
        },
        ClockCalcStrategy::FromFrequency => {
            if mainck == 0 {
                None
            } else {
                let pair = plla_search(mainck, p.freq.0);
                proof {
                    let c = choose|c: (u16, u8)|
                        pll_choice(mainck as int, p.freq.0 as int, c.0 as int, c.1 as int);
                    lemma_pll_choice_unique(
                        mainck as int,
                        p.freq.0 as int,
                        pair.0 as int,
                        pair.1 as int,
                        c.0 as int,
                        c.1 as int,
                    );
                    assert(pair == c);
                }
                Some(pair)
            }
        },
    }
}

/// The PLLA output, when it fits a word.
fn pll_out(mainck: u32, mula: u16, diva: u8) -> (r: Option<u32>)
    requires
        mula <= 63,
        mula == 0 || diva >= 1,
    ensures
        r is Some <==> spec_pll_out(mainck, mula, diva) <= u32::MAX,
        r matches Some(f) ==> f == spec_pll_out(mainck, mula, diva),
{
    if mula == 0 {
        Some(0)
    } else {
        assert(mainck as int * (mula as int + 1) <= 0xFFFF_FFFF * 64) by (nonlinear_arith)
            requires
                mainck <= 0xFFFF_FFFF,
                mula <= 63,
        ;
        let f: u64 = mainck as u64 * (mula as u64 + 1) / (diva as u64);
        if f <= 0xFFFF_FFFF {
            Some(f as u32)
        } else {
            None
        }
    }
}

impl SystemClockConfig {
    /// Freezes the clock configuration: returns the frequencies it yields
    /// and the register accesses that make it effective, in the order the
    /// hardware needs them, or `InvalidConfig` when the configuration
    /// selects a main clock source it turns off, bypasses a crystal it
    /// keeps on, asks PLLA for a multiplier field over 63 or a divider of
    /// zero, asks PLLA for a frequency from a main clock of zero, gives a
    /// PLLA frequency that does not fit a word, or switches the master
    /// clock to a PLL it keeps off. The slow clock runs at the frequency of
    /// its source, whatever the `freq` field holds for the RC oscillator or
    /// the crystal.
    pub fn freeze(&self) -> (r: Result<(Clocks, Vec<RegOp>), InvalidConfig>)
        ensures
            r is Ok <==> spec_config_valid(*self),
            r matches Ok((clocks, ops)) ==> {
                &&& clocks.spec_slck() == spec_slck_hz(self.slck_conf)
                &&& clocks.spec_mainck() == spec_mainck_hz(self.mainck_conf)
                &&& clocks.spec_plla() == spec_plla_hz(*self)
                &&& clocks.spec_upll() == spec_upll_hz(*self)
                &&& clocks.spec_uplldiv() == spec_uplldiv_hz(*self)
                &&& clocks.spec_mck() == spec_mck_hz(*self)
                &&& clocks.spec_fclk() == spec_processor_hz(*self)
                &&& clocks.spec_hclk() == spec_processor_hz(*self)
                &&& clocks.spec_sys_tick() == spec_processor_hz(*self) / 2
                &&& ops@ == spec_clock_ops(*self)
            },
    {
        if !match self.mainck_conf.src {
            MainckSrc::MainRC => self.mainck_conf.rc_on,
            MainckSrc::MainCrystalOscillator => self.mainck_conf.crystal_on,
            MainckSrc::Bypass => !self.mainck_conf.crystal_on,
        } {
            return Err(InvalidConfig);
        }
        let mainck = mainck_hz(&self.mainck_conf);
        let (mula, diva) = match plla_setting(&self.plla_conf, mainck) {
            Some(pair) => pair,
            None => {
                return Err(InvalidConfig);
            },
        };
        let plla = match pll_out(mainck, mula, diva) {
            Some(f) => f,
            None => {
                return Err(InvalidConfig);
            },
        };
        let running = match self.mck_conf.src {
            MasterClockSrc::PLLACK => mula != 0,
            MasterClockSrc::UPLLCKDIV => self.upll_conf.enable,
            _ => true,
        };
        if !running {
            return Err(InvalidConfig);
        }
        let slck = slck_hz(&self.slck_conf);
        let upll: u32 = if self.upll_conf.enable {
            UPLL_HZ
        } else {
            0
        };
        let uplldiv: u32 = match self.mck_conf.uplldiv {
            UpllDiv::Div1 => upll,
            UpllDiv::Div2 => upll / 2,
        };
        let src: u32 = match self.mck_conf.src {
            MasterClockSrc::SLCK => slck,
            MasterClockSrc::MAINCK => mainck,
            MasterClockSrc::PLLACK => plla,
            MasterClockSrc::UPLLCKDIV => uplldiv,
        };
        let processor = src / self.mck_conf.pres.to_value();
        let peripheral = processor / self.mck_conf.mdiv.to_value();

        let mut ops = slck_ops(&self.slck_conf);
        let mut more = osc_ops(&self.mainck_conf);
        ops.append(&mut more);
        let mut more = select_ops(&self.mainck_conf);
        ops.append(&mut more);
        let mut more = plla_ops(mula, diva, self.plla_conf.startup_cycles);
        ops.append(&mut more);
        let mut more = upll_ops(&self.upll_conf);
        ops.append(&mut more);
        let mut more = mck_ops(&self.mck_conf);
        ops.append(&mut more);

        let clocks = Clocks {
            slck: Hertz(slck),
            mainck: Hertz(mainck),
            plla: Hertz(plla),
            upll: Hertz(upll),
            uplldiv: Hertz(uplldiv),
            mck: Hertz(peripheral),
            fclk: Hertz(processor),
            sys_tick: Hertz(processor / 2),
            hclk: Hertz(processor),
        };
        Ok((clocks, ops))
    }
}

} // verus!
