//! SDRAM bring-up: geometry and timing to controller registers, and the
//! JEDEC initialization sequence.
use vstd::prelude::*;

use crate::clock_gen::Clocks;
use crate::gpio::{
    assignment_ops, assignments_ok, lemma_assigned_modes, lemma_assignment_ops,
    lemma_assignment_push, pin_mode, pio_apply_all, same_pin, spec_reshape_ops, Parts, Periph,
    PeriphA, PeriphC, PeripheralCntr, Pin, PinAssignment, PinMode, PioState, Port,
};
use crate::regs::{enable_clock_op, spec_enable_clock_op, RegOp};
use crate::time::PicoSeconds;

verus! {

/// SDRAM controller registers.
pub const SDRAMC_BASE: u32 = 0x4008_4000;
/// Mode register: the command the controller issues.
pub const SDRAMC_MR: u32 = SDRAMC_BASE;
/// Refresh timer register.
pub const SDRAMC_TR: u32 = SDRAMC_BASE + 0x04;
/// Configuration register: geometry and timings.
pub const SDRAMC_CR: u32 = SDRAMC_BASE + 0x08;
/// Memory device register.
pub const SDRAMC_MDR: u32 = SDRAMC_BASE + 0x24;
/// Configuration register 1.
pub const SDRAMC_CFR1: u32 = SDRAMC_BASE + 0x28;
/// Peripheral id of the SDRAM controller.
pub const SDRAMC_PID: u32 = 62;
/// Start of the SDRAM window of the external bus interface.
pub const SDRAM_START: u32 = 0x7000_0000;

/// Mode register command: normal operation.
pub const MODE_NORMAL: u32 = 0;
/// Mode register command: no operation.
pub const MODE_NOP: u32 = 1;
/// Mode register command: precharge all banks.
pub const MODE_ALLBANKS_PRECHARGE: u32 = 2;
/// Mode register command: load the SDRAM mode register.
pub const MODE_LOAD_MODEREG: u32 = 3;
/// Mode register command: auto-refresh.
pub const MODE_AUTO_REFRESH: u32 = 4;

/// Auto-refresh commands issued during initialization.
pub const INIT_REFRESHES: u32 = 8;
/// Wait after the first command, in microseconds.
pub const POWER_UP_DELAY_US: u32 = 200;
/// Cycles from a load mode register command to an activate command.
pub const TMRD_CYCLES: u32 = 2;
/// Data bus width: 16 bits.
pub const CR_DBW: u32 = 0x80;
/// Support of unaligned accesses.
pub const CFR1_UNAL: u32 = 1 << 8;
/// Largest cycle count of a timing field of the configuration register.
pub const TIMING_MAX: u32 = 15;
/// Largest cycle count of the refresh timer.
pub const REFRESH_MAX: u32 = 0xFFF;
/// Picoseconds in a second.
pub const PS_PER_S: u64 = 1_000_000_000_000;

/// Number of banks.
#[derive(Clone, Copy, Debug, PartialEq, Eq, Structural)]
pub enum SdramBanks {
    Bank2,
    Bank4,
}

/// Number of rows.
#[derive(Clone, Copy, Debug, PartialEq, Eq, Structural)]
pub enum SdramRows {
    Rows2K,
    Rows4K,
    Rows8K,
}

/// Number of columns.
#[derive(Clone, Copy, Debug, PartialEq, Eq, Structural)]
pub enum SdramColumns {
    Columns256,
    Columns512,
    Columns1K,
    Columns2K,
}

/// Whether the 16-bit data bus accepts unaligned accesses.
#[derive(Clone, Copy, Debug, PartialEq, Eq, Structural)]
pub enum SdramAlignment {
    Aligned,
    Unaligned,
}

/// CAS latency in cycles.
#[derive(Clone, Copy, Debug, PartialEq, Eq, Structural)]
pub enum SdramCasLatency {
    Latency1,
    Latency2,
    Latency3,
}

/// Timing parameters of the memory device.
#[derive(Clone, Copy, Debug, PartialEq, Eq, Structural)]
pub struct SdramTiming {
    /// Write recovery time.
    pub twr: PicoSeconds,
    /// Row cycle time (also the refresh cycle time).
    pub trc: PicoSeconds,
    /// Row precharge time.
    pub trp: PicoSeconds,
    /// Row to column delay.
    pub trcd: PicoSeconds,
    /// Active to precharge time.
    pub tras: PicoSeconds,
    /// Exit self-refresh to active time.
    pub txsr: PicoSeconds,
    /// Interval between two refreshes.
    pub refresh: PicoSeconds,
}

/// Geometry and timing of the memory device.
#[derive(Clone, Copy, Debug, PartialEq, Eq, Structural)]
pub struct SdramConfig {
    pub banks: SdramBanks,
    pub rows: SdramRows,
    pub columns: SdramColumns,
    pub alignment: SdramAlignment,
    pub latency: SdramCasLatency,
    pub timing: SdramTiming,
}

/// Why the SDRAM could not be brought up.
#[derive(Clone, Copy, Debug, PartialEq, Eq, Structural)]
pub enum SdramError {
    /// A pin of the cohort is not the pin the controller drives.
    WrongPin,
    /// The master clock is off.
    ClockOff,
    /// A timing, in cycles, does not fit its register field.
    TimingOverflow,
}

/// The timings in master clock cycles.
#[derive(Clone, Copy, Debug, PartialEq, Eq, Structural)]
pub struct SdramCycles {
    pub twr: u32,
    pub trc: u32,
    pub trp: u32,
    pub trcd: u32,
    pub tras: u32,
    pub txsr: u32,
    pub refresh: u32,
}

/// Whole cycles of a clock of `mck` hertz that cover `t_ps` picoseconds:
/// the ceiling of t_ps * mck / 10^12.
pub open spec fn spec_cycles(t_ps: u32, mck: u32) -> int {
    let p = t_ps as int * mck as int;
    if p % (PS_PER_S as int) == 0 {
        p / (PS_PER_S as int)
    } else {
        p / (PS_PER_S as int) + 1
    }
}

/// Cycles that cover `t_ps` picoseconds at `mck` hertz, rounded up.
pub fn cycles(t_ps: PicoSeconds, mck: u32) -> (r: u64)
    ensures
        r == spec_cycles(t_ps.0, mck),
{
    assert(t_ps.0 as int * mck as int <= u64::MAX) by (nonlinear_arith)
        requires
            t_ps.0 <= u32::MAX,
            mck <= u32::MAX,
    ;
    let p: u64 = t_ps.0 as u64 * mck as u64;
    let q = p / PS_PER_S;
    if p % PS_PER_S == 0 {
        q
    } else {
        q + 1
    }
}

/// The timings of `t` in cycles of `mck`.
pub open spec fn spec_timing_cycles(t: SdramTiming, mck: u32) -> (int, int, int, int, int, int, int) {
    (
        spec_cycles(t.twr.0, mck),
        spec_cycles(t.trc.0, mck),
        spec_cycles(t.trp.0, mck),
        spec_cycles(t.trcd.0, mck),
        spec_cycles(t.tras.0, mck),
        spec_cycles(t.txsr.0, mck),
        spec_cycles(t.refresh.0, mck),
    )
}

/// Every timing of `t` fits its field at `mck`.
pub open spec fn spec_timing_fits(t: SdramTiming, mck: u32) -> bool {
    &&& spec_cycles(t.twr.0, mck) <= TIMING_MAX
    &&& spec_cycles(t.trc.0, mck) <= TIMING_MAX
    &&& spec_cycles(t.trp.0, mck) <= TIMING_MAX
    &&& spec_cycles(t.trcd.0, mck) <= TIMING_MAX
    &&& spec_cycles(t.tras.0, mck) <= TIMING_MAX
    &&& spec_cycles(t.txsr.0, mck) <= TIMING_MAX
    &&& spec_cycles(t.refresh.0, mck) <= REFRESH_MAX
}

/// The cycle counts a setup programs, when every one fits its field.
pub open spec fn spec_cycles_of(t: SdramTiming, mck: u32) -> SdramCycles {
    SdramCycles {
        twr: spec_cycles(t.twr.0, mck) as u32,
        trc: spec_cycles(t.trc.0, mck) as u32,
        trp: spec_cycles(t.trp.0, mck) as u32,
        trcd: spec_cycles(t.trcd.0, mck) as u32,
        tras: spec_cycles(t.tras.0, mck) as u32,
        txsr: spec_cycles(t.txsr.0, mck) as u32,
        refresh: spec_cycles(t.refresh.0, mck) as u32,
    }
}

fn timing_cycles(t: &SdramTiming, mck: u32) -> (r: Option<SdramCycles>)
    ensures
        r is Some <==> spec_timing_fits(*t, mck),
        r matches Some(c) ==> c == spec_cycles_of(*t, mck),
{
    let twr = cycles(t.twr, mck);
    let trc = cycles(t.trc, mck);
    let trp = cycles(t.trp, mck);
    let trcd = cycles(t.trcd, mck);
    let tras = cycles(t.tras, mck);
    let txsr = cycles(t.txsr, mck);
    let refresh = cycles(t.refresh, mck);
    let max = TIMING_MAX as u64;
    if twr <= max && trc <= max && trp <= max && trcd <= max && tras <= max && txsr <= max
        && refresh <= REFRESH_MAX as u64 {
        Some(
            SdramCycles {
                twr: twr as u32,
                trc: trc as u32,
                trp: trp as u32,
                trcd: trcd as u32,
                tras: tras as u32,
                txsr: txsr as u32,
                refresh: refresh as u32,
            },
        )
    } else {
        None
    }
}

impl SdramConfig {
    /// Size of the memory in bytes: banks * rows * columns * 2.
    pub open spec fn spec_size(self) -> int {
        let banks: int = match self.banks {
            SdramBanks::Bank2 => 2,
            SdramBanks::Bank4 => 4,
        };
        let rows: int = match self.rows {
            SdramRows::Rows2K => 2048,
            SdramRows::Rows4K => 4096,
            SdramRows::Rows8K => 8192,
        };
        let cols: int = match self.columns {
            SdramColumns::Columns256 => 256,
            SdramColumns::Columns512 => 512,
            SdramColumns::Columns1K => 1024,
            SdramColumns::Columns2K => 2048,
        };
        banks * rows * cols * 2
    }

    /// Size of the memory in bytes: banks * rows * columns * 2.
    pub fn size(&self) -> (r: u32)
        ensures
            r == self.spec_size(),
    {
        let banks: u32 = match self.banks {
            SdramBanks::Bank2 => 2,
            SdramBanks::Bank4 => 4,
        };
        let rows: u32 = match self.rows {
            SdramRows::Rows2K => 2048,
            SdramRows::Rows4K => 4096,
            SdramRows::Rows8K => 8192,
        };
        let cols: u32 = match self.columns {
            SdramColumns::Columns256 => 256,
            SdramColumns::Columns512 => 512,
            SdramColumns::Columns1K => 1024,
            SdramColumns::Columns2K => 2048,
        };
        assert(banks * rows * cols * 2 <= 4 * 8192 * 2048 * 2) by (nonlinear_arith)
            requires
                banks <= 4,
                rows <= 8192,
                cols <= 2048,
        ;
        banks * rows * cols * 2
    }

    /// The geometry fields of the configuration register.
    pub open spec fn spec_geometry(self) -> u32 {
        let nc: u32 = match self.columns {
            SdramColumns::Columns256 => 0,
            SdramColumns::Columns512 => 1,
            SdramColumns::Columns1K => 2,
            SdramColumns::Columns2K => 3,
        };
        let nr: u32 = match self.rows {
            SdramRows::Rows2K => 0,
            SdramRows::Rows4K => 1,
            SdramRows::Rows8K => 2,
        };
        let nb: u32 = match self.banks {
            SdramBanks::Bank2 => 0,
            SdramBanks::Bank4 => 1,
        };
        let cas: u32 = match self.latency {
            SdramCasLatency::Latency1 => 1,
            SdramCasLatency::Latency2 => 2,
            SdramCasLatency::Latency3 => 3,
        };
        nc | (nr << 2) | (nb << 4) | (cas << 5) | CR_DBW
    }

    /// The geometry fields of the configuration register.
    pub fn geometry(&self) -> (r: u32)
        ensures
            r == self.spec_geometry(),
    {
        let nc: u32 = match self.columns {
            SdramColumns::Columns256 => 0,
            SdramColumns::Columns512 => 1,
            SdramColumns::Columns1K => 2,
            SdramColumns::Columns2K => 3,
        };
        let nr: u32 = match self.rows {
            SdramRows::Rows2K => 0,
            SdramRows::Rows4K => 1,
            SdramRows::Rows8K => 2,
        };
        let nb: u32 = match self.banks {
            SdramBanks::Bank2 => 0,
            SdramBanks::Bank4 => 1,
        };
        let cas: u32 = match self.latency {
            SdramCasLatency::Latency1 => 1,
            SdramCasLatency::Latency2 => 2,
            SdramCasLatency::Latency3 => 3,
        };
        nc | (nr << 2) | (nb << 4) | (cas << 5) | CR_DBW
    }

    /// The value of configuration register 1.
    pub open spec fn spec_cfr1(self) -> u32 {
        match self.alignment {
            SdramAlignment::Aligned => TMRD_CYCLES,
            SdramAlignment::Unaligned => TMRD_CYCLES | CFR1_UNAL,
        }
    }
}

/// The value of the configuration register: geometry in the low byte, then
/// twr, trc, trp, trcd, tras and txsr in four bits each.
pub open spec fn spec_cr(geometry: u32, c: SdramCycles) -> u32 {
    geometry | (c.twr << 8) | (c.trc << 12) | (c.trp << 16) | (c.trcd << 20) | (c.tras << 24) | (
    c.txsr << 28)
}

/// Each timing field of the configuration register holds its cycle count.
pub proof fn lemma_cr_fields(geometry: u32, c: SdramCycles)
    requires
        geometry < 0x100,
        c.twr <= 15,
        c.trc <= 15,
        c.trp <= 15,
        c.trcd <= 15,
        c.tras <= 15,
        c.txsr <= 15,
    ensures
        (spec_cr(geometry, c) >> 8) & 0xF == c.twr,
        (spec_cr(geometry, c) >> 12) & 0xF == c.trc,
        (spec_cr(geometry, c) >> 16) & 0xF == c.trp,
        (spec_cr(geometry, c) >> 20) & 0xF == c.trcd,
        (spec_cr(geometry, c) >> 24) & 0xF == c.tras,
        (spec_cr(geometry, c) >> 28) & 0xF == c.txsr,
        spec_cr(geometry, c) & 0xFF == geometry,
{
    let (g, a, b, d, e, f, h) = (geometry, c.twr, c.trc, c.trp, c.trcd, c.tras, c.txsr);
    assert({
        let v = g | (a << 8) | (b << 12) | (d << 16) | (e << 20) | (f << 24) | (h << 28);
        &&& (v >> 8) & 0xF == a
        &&& (v >> 12) & 0xF == b
        &&& (v >> 16) & 0xF == d
        &&& (v >> 20) & 0xF == e
        &&& (v >> 24) & 0xF == f
        &&& (v >> 28) & 0xF == h
        &&& v & 0xFF == g
    }) by (bit_vector)
        requires
            g < 0x100,
            a <= 15,
            b <= 15,
            d <= 15,
            e <= 15,
            f <= 15,
            h <= 15,
    ;
}

/// After a setup, every timing field of the configuration register holds
/// the cycles that cover its time at the master clock, rounded up.
pub proof fn lemma_programmed_cycles(config: SdramConfig, mck: u32)
    requires
        spec_timing_fits(config.timing, mck),
    ensures
        ({
            let cr = spec_cr(config.spec_geometry(), spec_cycles_of(config.timing, mck));
            &&& (cr >> 8) & 0xF == spec_cycles(config.timing.twr.0, mck)
            &&& (cr >> 12) & 0xF == spec_cycles(config.timing.trc.0, mck)
            &&& (cr >> 16) & 0xF == spec_cycles(config.timing.trp.0, mck)
            &&& (cr >> 20) & 0xF == spec_cycles(config.timing.trcd.0, mck)
            &&& (cr >> 24) & 0xF == spec_cycles(config.timing.tras.0, mck)
            &&& (cr >> 28) & 0xF == spec_cycles(config.timing.txsr.0, mck)
        }),
{
    let g = config.spec_geometry();
    assert(g < 0x100) by {
        let nc: u32 = match config.columns {
            SdramColumns::Columns256 => 0,
            SdramColumns::Columns512 => 1,
            SdramColumns::Columns1K => 2,
            SdramColumns::Columns2K => 3,
        };
        let nr: u32 = match config.rows {
            SdramRows::Rows2K => 0,
            SdramRows::Rows4K => 1,
            SdramRows::Rows8K => 2,
        };
        let nb: u32 = match config.banks {
            SdramBanks::Bank2 => 0,
            SdramBanks::Bank4 => 1,
        };
        let cas: u32 = match config.latency {
            SdramCasLatency::Latency1 => 1,
            SdramCasLatency::Latency2 => 2,
            SdramCasLatency::Latency3 => 3,
        };
        assert(g == (nc | (nr << 2) | (nb << 4) | (cas << 5) | CR_DBW));
        assert((nc | (nr << 2) | (nb << 4) | (cas << 5) | 0x80u32) < 0x100) by (bit_vector)
            requires
                nc <= 3,
                nr <= 2,
                nb <= 1,
                cas <= 3,
        ;
    }
    lemma_cr_fields(g, spec_cycles_of(config.timing, mck));
}

/// A command of the mode register, then the memory access that issues it.
pub open spec fn spec_command(mode: u32) -> Seq<RegOp> {
    seq![RegOp::Write { addr: SDRAMC_MR, value: mode }, RegOp::Write { addr: SDRAM_START, value: 0 }]
}

/// `n` auto-refresh commands.
pub open spec fn spec_refreshes(n: nat) -> Seq<RegOp>
    decreases n,
{
    if n == 0 {
        seq![]
    } else {
        spec_refreshes((n - 1) as nat) + spec_command(MODE_AUTO_REFRESH)
    }
}

/// Every register access of the bring-up of `config` with cycle counts `c`, in order.
pub open spec fn spec_sdram_ops(config: SdramConfig, c: SdramCycles) -> Seq<RegOp> {
    seq![
        spec_enable_clock_op(SDRAMC_PID),
        RegOp::Write { addr: SDRAMC_MDR, value: 0 },
        RegOp::Write { addr: SDRAMC_CR, value: spec_cr(config.spec_geometry(), c) },
        RegOp::Write { addr: SDRAMC_CFR1, value: config.spec_cfr1() },
    ] + spec_command(MODE_NOP) + seq![RegOp::Delay { micros: POWER_UP_DELAY_US }] + spec_command(
        MODE_ALLBANKS_PRECHARGE,
    ) + spec_refreshes(INIT_REFRESHES as nat) + spec_command(MODE_LOAD_MODEREG) + spec_command(
        MODE_NORMAL,
    ) + seq![RegOp::Write { addr: SDRAMC_TR, value: c.refresh }]
}

fn push_command(ops: &mut Vec<RegOp>, mode: u32)
    ensures
        final(ops)@ == old(ops)@ + spec_command(mode),
{
    ops.push(RegOp::Write { addr: SDRAMC_MR, value: mode });
    ops.push(RegOp::Write { addr: SDRAM_START, value: 0 });
    assert(final(ops)@ =~= old(ops)@ + spec_command(mode));
}

/// The pins over which the controller reaches the memory, each in the
/// peripheral mode that hands it to the controller.
pub struct SdramPins {
    pub a0: Pin<PeripheralCntr<PeriphA>>,
    pub a1: Pin<PeripheralCntr<PeriphA>>,
    pub a2: Pin<PeripheralCntr<PeriphA>>,
    pub a3: Pin<PeripheralCntr<PeriphA>>,
    pub a4: Pin<PeripheralCntr<PeriphA>>,
    pub a5: Pin<PeripheralCntr<PeriphA>>,
    pub a6: Pin<PeripheralCntr<PeriphA>>,
    pub a7: Pin<PeripheralCntr<PeriphA>>,
    pub a8: Pin<PeripheralCntr<PeriphA>>,
    pub a9: Pin<PeripheralCntr<PeriphA>>,
    pub a10: Pin<PeripheralCntr<PeriphC>>,
    pub a11: Pin<PeripheralCntr<PeriphA>>,
    pub a12: Pin<PeripheralCntr<PeriphC>>,
    pub d0: Pin<PeripheralCntr<PeriphA>>,
    pub d1: Pin<PeripheralCntr<PeriphA>>,
    pub d2: Pin<PeripheralCntr<PeriphA>>,
    pub d3: Pin<PeripheralCntr<PeriphA>>,
    pub d4: Pin<PeripheralCntr<PeriphA>>,
    pub d5: Pin<PeripheralCntr<PeriphA>>,
    pub d6: Pin<PeripheralCntr<PeriphA>>,
    pub d7: Pin<PeripheralCntr<PeriphA>>,
    pub d8: Pin<PeripheralCntr<PeriphA>>,
    pub d9: Pin<PeripheralCntr<PeriphA>>,
    pub d10: Pin<PeripheralCntr<PeriphA>>,
    pub d11: Pin<PeripheralCntr<PeriphA>>,
    pub d12: Pin<PeripheralCntr<PeriphA>>,
    pub d13: Pin<PeripheralCntr<PeriphA>>,
    pub d14: Pin<PeripheralCntr<PeriphA>>,
    pub d15: Pin<PeripheralCntr<PeriphA>>,
    pub ba0: Pin<PeripheralCntr<PeriphC>>,
    pub ba1: Pin<PeripheralCntr<PeriphC>>,
    pub dqm0: Pin<PeripheralCntr<PeriphA>>,
    pub dqm1: Pin<PeripheralCntr<PeriphC>>,
    pub clk: Pin<PeripheralCntr<PeriphC>>,
    pub cke: Pin<PeripheralCntr<PeriphC>>,
    pub ras: Pin<PeripheralCntr<PeriphC>>,
    pub cas: Pin<PeripheralCntr<PeriphC>>,
    pub we: Pin<PeripheralCntr<PeriphC>>,
}

impl SdramPins {
    /// Every pin of the cohort is the pin its line runs on.
    pub open spec fn spec_pins_ok(&self) -> bool {
        let p = self;
    &&& p.a0.spec_port() == Port::C && p.a0.spec_index() == 20
    &&& p.a1.spec_port() == Port::C && p.a1.spec_index() == 21
    &&& p.a2.spec_port() == Port::C && p.a2.spec_index() == 22
    &&& p.a3.spec_port() == Port::C && p.a3.spec_index() == 23
    &&& p.a4.spec_port() == Port::C && p.a4.spec_index() == 24
    &&& p.a5.spec_port() == Port::C && p.a5.spec_index() == 25
    &&& p.a6.spec_port() == Port::C && p.a6.spec_index() == 26
    &&& p.a7.spec_port() == Port::C && p.a7.spec_index() == 27
    &&& p.a8.spec_port() == Port::C && p.a8.spec_index() == 28
    &&& p.a9.spec_port() == Port::C && p.a9.spec_index() == 29
    &&& p.a10.spec_port() == Port::D && p.a10.spec_index() == 13
    &&& p.a11.spec_port() == Port::C && p.a11.spec_index() == 31
    &&& p.a12.spec_port() == Port::A && p.a12.spec_index() == 18
    &&& p.d0.spec_port() == Port::C && p.d0.spec_index() == 0
    &&& p.d1.spec_port() == Port::C && p.d1.spec_index() == 1
    &&& p.d2.spec_port() == Port::C && p.d2.spec_index() == 2
    &&& p.d3.spec_port() == Port::C && p.d3.spec_index() == 3
    &&& p.d4.spec_port() == Port::C && p.d4.spec_index() == 4
    &&& p.d5.spec_port() == Port::C && p.d5.spec_index() == 5
    &&& p.d6.spec_port() == Port::C && p.d6.spec_index() == 6
    &&& p.d7.spec_port() == Port::C && p.d7.spec_index() == 7
    &&& p.d8.spec_port() == Port::E && p.d8.spec_index() == 0
    &&& p.d9.spec_port() == Port::E && p.d9.spec_index() == 1
    &&& p.d10.spec_port() == Port::E && p.d10.spec_index() == 2
    &&& p.d11.spec_port() == Port::E && p.d11.spec_index() == 3
    &&& p.d12.spec_port() == Port::E && p.d12.spec_index() == 4
    &&& p.d13.spec_port() == Port::E && p.d13.spec_index() == 5
    &&& p.d14.spec_port() == Port::A && p.d14.spec_index() == 15
    &&& p.d15.spec_port() == Port::A && p.d15.spec_index() == 16
    &&& p.ba0.spec_port() == Port::A && p.ba0.spec_index() == 20
    &&& p.ba1.spec_port() == Port::A && p.ba1.spec_index() == 0
    &&& p.dqm0.spec_port() == Port::C && p.dqm0.spec_index() == 18
    &&& p.dqm1.spec_port() == Port::D && p.dqm1.spec_index() == 15
    &&& p.clk.spec_port() == Port::D && p.clk.spec_index() == 23
    &&& p.cke.spec_port() == Port::D && p.cke.spec_index() == 14
    &&& p.ras.spec_port() == Port::D && p.ras.spec_index() == 16
    &&& p.cas.spec_port() == Port::D && p.cas.spec_index() == 17
    &&& p.we.spec_port() == Port::D && p.we.spec_index() == 29
    }

    /// Whether every pin of the cohort is the pin its line runs on.
    pub fn pins_ok(&self) -> (r: bool)
        ensures
            r == self.spec_pins_ok(),
    {
        let p = self;
    (p.a0.port() == Port::C && p.a0.index() == 20) &&
    (p.a1.port() == Port::C && p.a1.index() == 21) &&
    (p.a2.port() == Port::C && p.a2.index() == 22) &&
    (p.a3.port() == Port::C && p.a3.index() == 23) &&
    (p.a4.port() == Port::C && p.a4.index() == 24) &&
    (p.a5.port() == Port::C && p.a5.index() == 25) &&
    (p.a6.port() == Port::C && p.a6.index() == 26) &&
    (p.a7.port() == Port::C && p.a7.index() == 27) &&
    (p.a8.port() == Port::C && p.a8.index() == 28) &&
    (p.a9.port() == Port::C && p.a9.index() == 29) &&
    (p.a10.port() == Port::D && p.a10.index() == 13) &&
    (p.a11.port() == Port::C && p.a11.index() == 31) &&
    (p.a12.port() == Port::A && p.a12.index() == 18) &&
    (p.d0.port() == Port::C && p.d0.index() == 0) &&
    (p.d1.port() == Port::C && p.d1.index() == 1) &&
    (p.d2.port() == Port::C && p.d2.index() == 2) &&
    (p.d3.port() == Port::C && p.d3.index() == 3) &&
    (p.d4.port() == Port::C && p.d4.index() == 4) &&
    (p.d5.port() == Port::C && p.d5.index() == 5) &&
    (p.d6.port() == Port::C && p.d6.index() == 6) &&
    (p.d7.port() == Port::C && p.d7.index() == 7) &&
    (p.d8.port() == Port::E && p.d8.index() == 0) &&
    (p.d9.port() == Port::E && p.d9.index() == 1) &&
    (p.d10.port() == Port::E && p.d10.index() == 2) &&
    (p.d11.port() == Port::E && p.d11.index() == 3) &&
    (p.d12.port() == Port::E && p.d12.index() == 4) &&
    (p.d13.port() == Port::E && p.d13.index() == 5) &&
    (p.d14.port() == Port::A && p.d14.index() == 15) &&
    (p.d15.port() == Port::A && p.d15.index() == 16) &&
    (p.ba0.port() == Port::A && p.ba0.index() == 20) &&
    (p.ba1.port() == Port::A && p.ba1.index() == 0) &&
    (p.dqm0.port() == Port::C && p.dqm0.index() == 18) &&
    (p.dqm1.port() == Port::D && p.dqm1.index() == 15) &&
    (p.clk.port() == Port::D && p.clk.index() == 23) &&
    (p.cke.port() == Port::D && p.cke.index() == 14) &&
    (p.ras.port() == Port::D && p.ras.index() == 16) &&
    (p.cas.port() == Port::D && p.cas.index() == 17) &&
    (p.we.port() == Port::D && p.we.index() == 29)
    }
}


/// The pin each line of the cohort runs on, and the peripheral that hands
/// it to the controller, in the order of the fields of `SdramPins`.
pub open spec fn spec_cohort() -> Seq<PinAssignment> {
    seq![
        (Port::C, 20u32, Periph::A),
        (Port::C, 21u32, Periph::A),
        (Port::C, 22u32, Periph::A),
        (Port::C, 23u32, Periph::A),
        (Port::C, 24u32, Periph::A),
        (Port::C, 25u32, Periph::A),
        (Port::C, 26u32, Periph::A),
        (Port::C, 27u32, Periph::A),
        (Port::C, 28u32, Periph::A),
        (Port::C, 29u32, Periph::A),
        (Port::D, 13u32, Periph::C),
        (Port::C, 31u32, Periph::A),
        (Port::A, 18u32, Periph::C),
        (Port::C, 0u32, Periph::A),
        (Port::C, 1u32, Periph::A),
        (Port::C, 2u32, Periph::A),
        (Port::C, 3u32, Periph::A),
        (Port::C, 4u32, Periph::A),
        (Port::C, 5u32, Periph::A),
        (Port::C, 6u32, Periph::A),
        (Port::C, 7u32, Periph::A),
        (Port::E, 0u32, Periph::A),
        (Port::E, 1u32, Periph::A),
        (Port::E, 2u32, Periph::A),
        (Port::E, 3u32, Periph::A),
        (Port::E, 4u32, Periph::A),
        (Port::E, 5u32, Periph::A),
        (Port::A, 15u32, Periph::A),
        (Port::A, 16u32, Periph::A),
        (Port::A, 20u32, Periph::C),
        (Port::A, 0u32, Periph::C),
        (Port::C, 18u32, Periph::A),
        (Port::D, 15u32, Periph::C),
        (Port::D, 23u32, Periph::C),
        (Port::D, 14u32, Periph::C),
        (Port::D, 16u32, Periph::C),
        (Port::D, 17u32, Periph::C),
        (Port::D, 29u32, Periph::C),
    ]
}

/// The register accesses that hand every pin of the cohort to the
/// controller, pin by pin in the order of the fields of `SdramPins`.
pub open spec fn spec_cohort_ops() -> Seq<RegOp> {
    assignment_ops(spec_cohort())
}

#[verifier::rlimit(100)]
proof fn lemma_cohort_ok()
    ensures
        assignments_ok(spec_cohort()),
{
    let l = spec_cohort();
    assert(l.len() == 38);
}

/// After the accesses that `SdramPins::from_parts` returns, on every
/// controller each pin of the cohort is in the peripheral mode that hands
/// it to the SDRAM controller, whatever was done to the pins before it,
/// and every pin outside the cohort reads back as it did before.
pub proof fn lemma_cohort_effect(s: PioState, port: Port, j: u32)
    requires
        j < 32,
    ensures
        forall|k: int|
            0 <= k < spec_cohort().len() && spec_cohort()[k].0 == port ==> pin_mode(
                pio_apply_all(s, port.spec_base(), spec_cohort_ops()),
                #[trigger] spec_cohort()[k].1,
            ) == PinMode::Peripheral(spec_cohort()[k].2),
        (forall|k: int|
            0 <= k < spec_cohort().len() ==> !(#[trigger] spec_cohort()[k].0 == port
                && spec_cohort()[k].1 == j)) ==> same_pin(
            pio_apply_all(s, port.spec_base(), spec_cohort_ops()),
            s,
            j,
        ),
{
    lemma_cohort_ok();
    lemma_assignment_ops(s, port, spec_cohort());
    lemma_assigned_modes(s, port, spec_cohort(), j);
}

impl SdramPins {
    /// Takes the pins of the cohort out of the parts of controllers A, C, D
    /// and E, and hands each to the controller; returns the cohort and the
    /// register accesses that reshape its pins, or `None` when the parts
    /// do not hold the pins their fields name.
    pub fn from_parts(a: Parts, c: Parts, d: Parts, e: Parts) -> (r: Option<(SdramPins, Vec<RegOp>)>)
        ensures
            a.fresh(Port::A) && c.fresh(Port::C) && d.fresh(Port::D) && e.fresh(Port::E) ==> r is Some,
            r matches Some((pins, ops)) ==> pins.spec_pins_ok() && ops@ == spec_cohort_ops(),
    {
        let mut ops: Vec<RegOp> = Vec::new();
        let ghost mut done = Seq::<PinAssignment>::empty();
        assert(ops@ =~= assignment_ops(done));
        let (a0, mut o) = c.p20.into_peripheral_a();
        ops.append(&mut o);
        proof {
            let e = (a0.spec_port(), a0.spec_index(), Periph::A);
            lemma_assignment_push(done, e);
            done = done.push(e);
        }
        let (a1, mut o) = c.p21.into_peripheral_a();
        ops.append(&mut o);
        proof {
            let e = (a1.spec_port(), a1.spec_index(), Periph::A);
            lemma_assignment_push(done, e);
            done = done.push(e);
        }
        let (a2, mut o) = c.p22.into_peripheral_a();
        ops.append(&mut o);
        proof {
            let e = (a2.spec_port(), a2.spec_index(), Periph::A);
            lemma_assignment_push(done, e);
            done = done.push(e);
        }
        let (a3, mut o) = c.p23.into_peripheral_a();
        ops.append(&mut o);
        proof {
            let e = (a3.spec_port(), a3.spec_index(), Periph::A);
            lemma_assignment_push(done, e);
            done = done.push(e);
        }
        let (a4, mut o) = c.p24.into_peripheral_a();
        ops.append(&mut o);
        proof {
            let e = (a4.spec_port(), a4.spec_index(), Periph::A);
            lemma_assignment_push(done, e);
            done = done.push(e);
        }
        let (a5, mut o) = c.p25.into_peripheral_a();
        ops.append(&mut o);
        proof {
            let e = (a5.spec_port(), a5.spec_index(), Periph::A);
            lemma_assignment_push(done, e);
            done = done.push(e);
        }
        let (a6, mut o) = c.p26.into_peripheral_a();
        ops.append(&mut o);
        proof {
            let e = (a6.spec_port(), a6.spec_index(), Periph::A);
            lemma_assignment_push(done, e);
            done = done.push(e);
        }
        let (a7, mut o) = c.p27.into_peripheral_a();
        ops.append(&mut o);
        proof {
            let e = (a7.spec_port(), a7.spec_index(), Periph::A);
            lemma_assignment_push(done, e);
            done = done.push(e);
        }
        let (a8, mut o) = c.p28.into_peripheral_a();
        ops.append(&mut o);
        proof {
            let e = (a8.spec_port(), a8.spec_index(), Periph::A);
            lemma_assignment_push(done, e);
            done = done.push(e);
        }
        let (a9, mut o) = c.p29.into_peripheral_a();
        ops.append(&mut o);
        proof {
            let e = (a9.spec_port(), a9.spec_index(), Periph::A);
            lemma_assignment_push(done, e);
            done = done.push(e);
        }
        let (a10, mut o) = d.p13.into_peripheral_c();
        ops.append(&mut o);
        proof {
            let e = (a10.spec_port(), a10.spec_index(), Periph::C);
            lemma_assignment_push(done, e);
            done = done.push(e);
        }
        let (a11, mut o) = c.p31.into_peripheral_a();
        ops.append(&mut o);
        proof {
            let e = (a11.spec_port(), a11.spec_index(), Periph::A);
            lemma_assignment_push(done, e);
            done = done.push(e);
        }
        let (a12, mut o) = a.p18.into_peripheral_c();
        ops.append(&mut o);
        proof {
            let e = (a12.spec_port(), a12.spec_index(), Periph::C);
            lemma_assignment_push(done, e);
            done = done.push(e);
        }
        let (d0, mut o) = c.p0.into_peripheral_a();
        ops.append(&mut o);
        proof {
            let e = (d0.spec_port(), d0.spec_index(), Periph::A);
            lemma_assignment_push(done, e);
            done = done.push(e);
        }
        let (d1, mut o) = c.p1.into_peripheral_a();
        ops.append(&mut o);
        proof {
            let e = (d1.spec_port(), d1.spec_index(), Periph::A);
            lemma_assignment_push(done, e);
            done = done.push(e);
        }
        let (d2, mut o) = c.p2.into_peripheral_a();
        ops.append(&mut o);
        proof {
            let e = (d2.spec_port(), d2.spec_index(), Periph::A);
            lemma_assignment_push(done, e);
            done = done.push(e);
        }
        let (d3, mut o) = c.p3.into_peripheral_a();
        ops.append(&mut o);
        proof {
            let e = (d3.spec_port(), d3.spec_index(), Periph::A);
            lemma_assignment_push(done, e);
            done = done.push(e);
        }
        let (d4, mut o) = c.p4.into_peripheral_a();
        ops.append(&mut o);
        proof {
            let e = (d4.spec_port(), d4.spec_index(), Periph::A);
            lemma_assignment_push(done, e);
            done = done.push(e);
        }
        let (d5, mut o) = c.p5.into_peripheral_a();
        ops.append(&mut o);
        proof {
            let e = (d5.spec_port(), d5.spec_index(), Periph::A);
            lemma_assignment_push(done, e);
            done = done.push(e);
        }
        let (d6, mut o) = c.p6.into_peripheral_a();
        ops.append(&mut o);
        proof {
            let e = (d6.spec_port(), d6.spec_index(), Periph::A);
            lemma_assignment_push(done, e);
            done = done.push(e);
        }
        let (d7, mut o) = c.p7.into_peripheral_a();
        ops.append(&mut o);
        proof {
            let e = (d7.spec_port(), d7.spec_index(), Periph::A);
            lemma_assignment_push(done, e);
            done = done.push(e);
        }
        let (d8, mut o) = e.p0.into_peripheral_a();
        ops.append(&mut o);
        proof {
            let e = (d8.spec_port(), d8.spec_index(), Periph::A);
            lemma_assignment_push(done, e);
            done = done.push(e);
        }
        let (d9, mut o) = e.p1.into_peripheral_a();
        ops.append(&mut o);
        proof {
            let e = (d9.spec_port(), d9.spec_index(), Periph::A);
            lemma_assignment_push(done, e);
            done = done.push(e);
        }
        let (d10, mut o) = e.p2.into_peripheral_a();
        ops.append(&mut o);
        proof {
            let e = (d10.spec_port(), d10.spec_index(), Periph::A);
            lemma_assignment_push(done, e);
            done = done.push(e);
        }
        let (d11, mut o) = e.p3.into_peripheral_a();
        ops.append(&mut o);
        proof {
            let e = (d11.spec_port(), d11.spec_index(), Periph::A);
            lemma_assignment_push(done, e);
            done = done.push(e);
        }
        let (d12, mut o) = e.p4.into_peripheral_a();
        ops.append(&mut o);
        proof {
            let e = (d12.spec_port(), d12.spec_index(), Periph::A);
            lemma_assignment_push(done, e);
            done = done.push(e);
        }
        let (d13, mut o) = e.p5.into_peripheral_a();
        ops.append(&mut o);
        proof {
            let e = (d13.spec_port(), d13.spec_index(), Periph::A);
            lemma_assignment_push(done, e);
            done = done.push(e);
        }
        let (d14, mut o) = a.p15.into_peripheral_a();
        ops.append(&mut o);
        proof {
            let e = (d14.spec_port(), d14.spec_index(), Periph::A);
            lemma_assignment_push(done, e);
            done = done.push(e);
        }
        let (d15, mut o) = a.p16.into_peripheral_a();
        ops.append(&mut o);
        proof {
            let e = (d15.spec_port(), d15.spec_index(), Periph::A);
            lemma_assignment_push(done, e);
            done = done.push(e);
        }
        let (ba0, mut o) = a.p20.into_peripheral_c();
        ops.append(&mut o);
        proof {
            let e = (ba0.spec_port(), ba0.spec_index(), Periph::C);
            lemma_assignment_push(done, e);
            done = done.push(e);
        }
        let (ba1, mut o) = a.p0.into_peripheral_c();
        ops.append(&mut o);
        proof {
            let e = (ba1.spec_port(), ba1.spec_index(), Periph::C);
            lemma_assignment_push(done, e);
            done = done.push(e);
        }
        let (dqm0, mut o) = c.p18.into_peripheral_a();
        ops.append(&mut o);
        proof {
            let e = (dqm0.spec_port(), dqm0.spec_index(), Periph::A);
            lemma_assignment_push(done, e);
            done = done.push(e);
        }
        let (dqm1, mut o) = d.p15.into_peripheral_c();
        ops.append(&mut o);
        proof {
            let e = (dqm1.spec_port(), dqm1.spec_index(), Periph::C);
            lemma_assignment_push(done, e);
            done = done.push(e);
        }
        let (clk, mut o) = d.p23.into_peripheral_c();
        ops.append(&mut o);
        proof {
            let e = (clk.spec_port(), clk.spec_index(), Periph::C);
            lemma_assignment_push(done, e);
            done = done.push(e);
        }
        let (cke, mut o) = d.p14.into_peripheral_c();
        ops.append(&mut o);
        proof {
            let e = (cke.spec_port(), cke.spec_index(), Periph::C);
            lemma_assignment_push(done, e);
            done = done.push(e);
        }
        let (ras, mut o) = d.p16.into_peripheral_c();
        ops.append(&mut o);
        proof {
            let e = (ras.spec_port(), ras.spec_index(), Periph::C);
            lemma_assignment_push(done, e);
            done = done.push(e);
        }
        let (cas, mut o) = d.p17.into_peripheral_c();
        ops.append(&mut o);
        proof {
            let e = (cas.spec_port(), cas.spec_index(), Periph::C);
            lemma_assignment_push(done, e);
            done = done.push(e);
        }
        let (we, mut o) = d.p29.into_peripheral_c();
        ops.append(&mut o);
        proof {
            let e = (we.spec_port(), we.spec_index(), Periph::C);
            lemma_assignment_push(done, e);
            done = done.push(e);
        }
        let pins = SdramPins { a0, a1, a2, a3, a4, a5, a6, a7, a8, a9, a10, a11, a12, d0, d1, d2, d3, d4, d5, d6, d7, d8, d9, d10, d11, d12, d13, d14, d15, ba0, ba1, dqm0, dqm1, clk, cke, ras, cas, we };
        if pins.pins_ok() {
            assert(done =~= spec_cohort());
            Some((pins, ops))
        } else {
            None
        }
    }
}

/// Ownership of the SDRAM controller.
pub struct Sdramc {
    _owned: (),
}

impl Sdramc {
    /// The handle of the controller; `Peripherals::take` hands out the only one.
    pub(crate) fn new() -> (r: Sdramc) {
        Sdramc { _owned: () }
    }
}

/// The SDRAM, mapped and ready.
pub struct Sdram {
    start_address: u32,
    size: u32,
    _controller: Sdramc,
    _pins: SdramPins,
}

impl Sdram {
    /// First address of the memory.
    pub closed spec fn spec_start_address(&self) -> u32 {
        self.start_address
    }

    /// Size of the memory in bytes.
    pub closed spec fn spec_size(&self) -> u32 {
        self.size
    }

    /// First address of the memory.
    pub fn start_address(&self) -> (r: u32)
        ensures
            r == self.spec_start_address(),
    {
        self.start_address
    }

    /// Size of the memory in bytes.
    pub fn size(&self) -> (r: u32)
        ensures
            r == self.spec_size(),
    {
        self.size
    }

    /// Brings up the memory described by `config` on `pins` at the master
    /// clock of `clocks`; returns the mapping and the register accesses of
    /// the initialization sequence, in order. Fails when a pin is not the
    /// one its line runs on, when the master clock is off, or when a timing
    /// does not fit its field.
    ///
    /// The controller reports no ready bit: the memory is ready once the
    /// last access of the sequence, the refresh timer, has been written,
    /// which is why the sequence ends with no wait.
    pub fn setup(sdramc: Sdramc, pins: SdramPins, config: SdramConfig, clocks: &Clocks) -> (r: Result<
        (Sdram, Vec<RegOp>),
        SdramError,
    >)
        ensures
            r matches Err(e) ==> (e == SdramError::WrongPin) == !pins.spec_pins_ok(),
            r matches Err(e) ==> e == SdramError::ClockOff ==> pins.spec_pins_ok() && clocks.spec_mck() == 0,
            r matches Err(e) ==> e == SdramError::TimingOverflow ==> pins.spec_pins_ok() && clocks.spec_mck()
                != 0 && !spec_timing_fits(config.timing, clocks.spec_mck()),
            r is Ok <==> pins.spec_pins_ok() && clocks.spec_mck() != 0 && spec_timing_fits(
                config.timing,
                clocks.spec_mck(),
            ),
            r matches Ok((sdram, ops)) ==> {
                &&& sdram.spec_start_address() == SDRAM_START
                &&& sdram.spec_size() == config.spec_size()
                &&& ops@ == spec_sdram_ops(config, spec_cycles_of(config.timing, clocks.spec_mck()))
            },
    {
        if !pins.pins_ok() {
            return Err(SdramError::WrongPin);
        }
        let mck = clocks.mck().0;
        if mck == 0 {
            return Err(SdramError::ClockOff);
        }
        let c = match timing_cycles(&config.timing, mck) {
            Some(c) => c,
            None => {
                return Err(SdramError::TimingOverflow);
            },
        };
        let cr = config.geometry() | (c.twr << 8) | (c.trc << 12) | (c.trp << 16) | (c.trcd << 20)
            | (c.tras << 24) | (c.txsr << 28);
        let cfr1 = match config.alignment {
            SdramAlignment::Aligned => TMRD_CYCLES,
            SdramAlignment::Unaligned => TMRD_CYCLES | CFR1_UNAL,
        };
        let mut ops: Vec<RegOp> = Vec::new();
        ops.push(enable_clock_op(SDRAMC_PID));
        ops.push(RegOp::Write { addr: SDRAMC_MDR, value: 0 });
        ops.push(RegOp::Write { addr: SDRAMC_CR, value: cr });
        ops.push(RegOp::Write { addr: SDRAMC_CFR1, value: cfr1 });
        push_command(&mut ops, MODE_NOP);
        ops.push(RegOp::Delay { micros: POWER_UP_DELAY_US });
        push_command(&mut ops, MODE_ALLBANKS_PRECHARGE);
        let ghost before = ops@;
        let mut n: u32 = 0;
        while n < INIT_REFRESHES
            invariant
                n <= INIT_REFRESHES,
                ops@ == before + spec_refreshes(n as nat),
            decreases INIT_REFRESHES - n,
        {
            push_command(&mut ops, MODE_AUTO_REFRESH);
            n = n + 1;
            assert(ops@ =~= before + spec_refreshes(n as nat));
        }
        push_command(&mut ops, MODE_LOAD_MODEREG);
        push_command(&mut ops, MODE_NORMAL);
        ops.push(RegOp::Write { addr: SDRAMC_TR, value: c.refresh });
        assert(ops@ =~= spec_sdram_ops(config, c));
        let sdram = Sdram {
            start_address: SDRAM_START,
            size: config.size(),
            _controller: sdramc,
            _pins: pins,
        };
        Ok((sdram, ops))
    }
}

} // verus!
