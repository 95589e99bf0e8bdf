//! Hardware abstraction layer for the ATSAME70 / ATSAMS70 / ATSAMV7x family.
//!
//! The library decides every register access that bringing up the clock
//! tree, the pins, the UARTs and the SDRAM controller takes, and hands those
//! accesses out as plain values (`RegOp`) for a thin runtime to perform.
//! Where a decision depends on what the hardware reports (a status word),
//! the runtime reads it and passes it in.
#![allow(non_camel_case_types)]

pub mod bitfield;
pub mod regs;
pub mod time;

pub mod clock_gen;
pub mod gpio;
pub mod peripherals;
pub mod plla;
pub mod sdram;
pub mod serial;
pub mod util;

pub mod eefc_fcr;
pub mod mcan_fbtp;
pub mod mcan_psr;
