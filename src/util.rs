//! Busy waiting on the real-time timer.
use vstd::prelude::*;

use crate::regs::RegOp;

verus! {

/// Real-time timer mode register.
pub const RTT_MR: u32 = 0x400E_1830;
/// Real-time timer value register.
pub const RTT_VR: u32 = 0x400E_1830 + 0x08;
/// Restarts the timer.
pub const RTT_RTTRST: u32 = 1 << 18;
/// Prescaler that makes the timer count about once per millisecond.
pub const RTT_MS_PRESCALER: u16 = 0x20;

/// The write that restarts the real-time timer with prescaler `pres`.
pub fn start_rtt(pres: u16) -> (r: RegOp)
    ensures
        r == (RegOp::Write { addr: RTT_MR, value: pres as u32 | RTT_RTTRST }),
{
    RegOp::Write { addr: RTT_MR, value: pres as u32 | RTT_RTTRST }
}

/// The register accesses that wait about `ms` milliseconds: restart the
/// timer at one count per millisecond, then wait for it to reach `ms`.
pub fn delayms(ms: u32) -> (r: Vec<RegOp>)
    ensures
        r@ == seq![
            RegOp::Write { addr: RTT_MR, value: RTT_MS_PRESCALER as u32 | RTT_RTTRST },
            RegOp::WaitAtLeast { addr: RTT_VR, value: ms },
        ],
{
    let mut ops: Vec<RegOp> = Vec::new();
    ops.push(start_rtt(RTT_MS_PRESCALER));
    ops.push(RegOp::WaitAtLeast { addr: RTT_VR, value: ms });
    assert(ops@ =~= seq![
        RegOp::Write { addr: RTT_MR, value: RTT_MS_PRESCALER as u32 | RTT_RTTRST },
        RegOp::WaitAtLeast { addr: RTT_VR, value: ms },
    ]);
    ops
}

} // verus!
