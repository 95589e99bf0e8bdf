//! Register accesses as values, and the addresses of the registers they touch.
use vstd::prelude::*;

verus! {

/// One access to the memory-mapped register file.
#[allow(inconsistent_fields)]
#[derive(Clone, Copy, Debug, PartialEq, Eq, Structural)]
pub enum RegOp {
    /// Stores `value` into the 32-bit register at `addr`.
    Write { addr: u32, value: u32 },
    /// Reads the register at `addr`, replaces the bits under `mask` with
    /// those of `value`, and writes the word back.
    Modify { addr: u32, mask: u32, value: u32 },
    /// Spins until every bit under `mask` of the register at `addr` reads one.
    WaitSet { addr: u32, mask: u32 },
    /// Stores the byte `value` at `addr` with a single 8-bit access.
    WriteByte { addr: u32, value: u8 },
    /// Reads the byte at `addr` once, with a single 8-bit access.
    ReadByte { addr: u32 },
    /// Spins for at least `micros` microseconds.
    Delay { micros: u32 },
    /// Spins until the register at `addr` reads at least `value`.
    WaitAtLeast { addr: u32, value: u32 },
}

/// Power management controller.
pub const PMC_BASE: u32 = 0x400E_0600;
/// Peripheral clock enable register 0 (peripheral ids 7 to 31).
pub const PMC_PCER0: u32 = PMC_BASE + 0x10;
/// UTMI clock register.
pub const CKGR_UCKR: u32 = PMC_BASE + 0x1C;
/// Main oscillator register.
pub const CKGR_MOR: u32 = PMC_BASE + 0x20;
/// PLLA register.
pub const CKGR_PLLAR: u32 = PMC_BASE + 0x28;
/// Master clock register.
pub const PMC_MCKR: u32 = PMC_BASE + 0x30;
/// Status register.
pub const PMC_SR: u32 = PMC_BASE + 0x68;
/// Peripheral clock enable register 1 (peripheral ids 32 to 63).
pub const PMC_PCER1: u32 = PMC_BASE + 0x100;

/// Supply controller.
pub const SUPC_BASE: u32 = 0x400E_1810;
/// Supply controller control register.
pub const SUPC_CR: u32 = SUPC_BASE;
/// Supply controller mode register.
pub const SUPC_MR: u32 = SUPC_BASE + 0x08;

/// UTMI clock trimming register.
pub const UTMI_CKTRIM: u32 = 0x400E_0400 + 0x30;

/// Enables the peripheral clock of `pid`: the write and its register.
pub open spec fn spec_enable_clock_op(pid: u32) -> RegOp {
    if pid < 32 {
        RegOp::Write { addr: PMC_PCER0, value: 1u32 << pid }
    } else {
        RegOp::Write { addr: PMC_PCER1, value: 1u32 << ((pid - 32) as u32) }
    }
}

/// The write that enables the peripheral clock of `pid` in the power
/// management controller.
pub fn enable_clock_op(pid: u32) -> (r: RegOp)
    requires
        pid < 64,
    ensures
        r == spec_enable_clock_op(pid),
{
    if pid < 32 {
        RegOp::Write { addr: PMC_PCER0, value: 1u32 << pid }
    } else {
        RegOp::Write { addr: PMC_PCER1, value: 1u32 << (pid - 32) }
    }
}

} // verus!
