//! Fast bit timing and prescaler register (MCAN_FBTP) of the CAN controller.
use vstd::prelude::*;

use crate::bitfield::{field, field_written, read_bit, read_small_field, write_bit, write_field};

verus! {

/// Value of the register after reset.
pub const MCAN_FBTP_RESET: u32 = 0;

/// Reader of register MCAN_FBTP: a word read from it.
#[derive(Clone, Copy, Debug, PartialEq, Eq)]
pub struct R {
    pub bits: u32,
}

/// Writer for register MCAN_FBTP: the word that a write will store.
#[derive(Clone, Copy, Debug, PartialEq, Eq)]
pub struct W {
    pub bits: u32,
}

/// Write proxy for field `FSJW`
pub struct FSJW_W {
    w: W,
}

impl FSJW_W {
    /// The writer this proxy writes into.
    pub closed spec fn target(self) -> W {
        self.w
    }

    /// Writes raw bits to the field; bits that do not fit are dropped.
    pub fn bits(self, value: u8) -> (r: W)
        ensures
            field_written(self.target().bits, r.bits, 0, 2, value as u32),
    {
        W { bits: write_field(self.w.bits, 0, 2, value as u32) }
    }
}

/// Write proxy for field `FTSEG2`
pub struct FTSEG2_W {
    w: W,
}

impl FTSEG2_W {
    /// The writer this proxy writes into.
    pub closed spec fn target(self) -> W {
        self.w
    }

    /// Writes raw bits to the field; bits that do not fit are dropped.
    pub fn bits(self, value: u8) -> (r: W)
        ensures
            field_written(self.target().bits, r.bits, 4, 3, value as u32),
    {
        W { bits: write_field(self.w.bits, 4, 3, value as u32) }
    }
}

/// Write proxy for field `FTSEG1`
pub struct FTSEG1_W {
    w: W,
}

impl FTSEG1_W {
    /// The writer this proxy writes into.
    pub closed spec fn target(self) -> W {
        self.w
    }

    /// Writes raw bits to the field; bits that do not fit are dropped.
    pub fn bits(self, value: u8) -> (r: W)
        ensures
            field_written(self.target().bits, r.bits, 8, 4, value as u32),
    {
        W { bits: write_field(self.w.bits, 8, 4, value as u32) }
    }
}

/// Write proxy for field `FBRP`
pub struct FBRP_W {
    w: W,
}

impl FBRP_W {
    /// The writer this proxy writes into.
    pub closed spec fn target(self) -> W {
        self.w
    }

    /// Writes raw bits to the field; bits that do not fit are dropped.
    pub fn bits(self, value: u8) -> (r: W)
        ensures
            field_written(self.target().bits, r.bits, 16, 5, value as u32),
    {
        W { bits: write_field(self.w.bits, 16, 5, value as u32) }
    }
}

/// Write proxy for field `TDCO`
pub struct TDCO_W {
    w: W,
}

impl TDCO_W {
    /// The writer this proxy writes into.
    pub closed spec fn target(self) -> W {
        self.w
    }

    /// Writes raw bits to the field; bits that do not fit are dropped.
    pub fn bits(self, value: u8) -> (r: W)
        ensures
            field_written(self.target().bits, r.bits, 24, 5, value as u32),
    {
        W { bits: write_field(self.w.bits, 24, 5, value as u32) }
    }
}

/// Transceiver Delay Compensation
#[derive(Clone, Copy, Debug, PartialEq, Eq)]
pub enum TDC_A {
    /// 0: Transceiver Delay Compensation disabled.
    DISABLED,
    /// 1: Transceiver Delay Compensation enabled.
    ENABLED,
}

impl TDC_A {
    /// The bit that stands for this variant.
    pub open spec fn spec_bit(self) -> bool {
        self == TDC_A::ENABLED
    }

    /// The bit that stands for this variant.
    pub fn bit(self) -> (r: bool)
        ensures
            r == self.spec_bit(),
    {
        match self {
            TDC_A::DISABLED => false,
            TDC_A::ENABLED => true,
        }
    }
}

/// Reader of field `TDC`
#[derive(Clone, Copy, Debug, PartialEq, Eq)]
pub struct TDC_R {
    pub bits: bool,
}

impl TDC_R {
    /// Get enumerated values variant
    pub fn variant(&self) -> (r: TDC_A)
        ensures
            r.spec_bit() == self.bits,
    {
        match self.bits {
            false => TDC_A::DISABLED,
            true => TDC_A::ENABLED,
        }
    }

    /// Checks if the value of the field is `DISABLED`
    pub fn is_disabled(&self) -> (r: bool)
        ensures
            r == !self.bits,
    {
        !self.bits
    }

    /// Checks if the value of the field is `ENABLED`
    pub fn is_enabled(&self) -> (r: bool)
        ensures
            r == self.bits,
    {
        self.bits
    }
}

/// Write proxy for field `TDC`
pub struct TDC_W {
    w: W,
}

impl TDC_W {
    /// The writer this proxy writes into.
    pub closed spec fn target(self) -> W {
        self.w
    }

    /// Writes `variant` to the field
    pub fn variant(self, variant: TDC_A) -> (r: W)
        ensures
            field_written(self.target().bits, r.bits, 23, 1, if variant.spec_bit() { 1 } else { 0 }),
    {
        self.bit(variant.bit())
    }

    /// Transceiver Delay Compensation disabled.
    pub fn disabled(self) -> (r: W)
        ensures
            field_written(self.target().bits, r.bits, 23, 1, 0),
    {
        self.variant(TDC_A::DISABLED)
    }

    /// Transceiver Delay Compensation enabled.
    pub fn enabled(self) -> (r: W)
        ensures
            field_written(self.target().bits, r.bits, 23, 1, 1),
    {
        self.variant(TDC_A::ENABLED)
    }

    /// Sets the field bit
    pub fn set_bit(self) -> (r: W)
        ensures
            field_written(self.target().bits, r.bits, 23, 1, 1),
    {
        self.bit(true)
    }

    /// Clears the field bit
    pub fn clear_bit(self) -> (r: W)
        ensures
            field_written(self.target().bits, r.bits, 23, 1, 0),
    {
        self.bit(false)
    }

    /// Writes raw bits to the field
    pub fn bit(self, value: bool) -> (r: W)
        ensures
            field_written(self.target().bits, r.bits, 23, 1, if value { 1 } else { 0 }),
    {
        W { bits: write_bit(self.w.bits, 23, value) }
    }
}

impl R {
    /// Bits 0:1 - Fast (Re) Synchronization Jump Width
    pub fn fsjw(&self) -> (r: u8)
        ensures
            r as u32 == field(self.bits, 0, 2),
    {
        read_small_field(self.bits, 0, 2)
    }

    /// Bits 4:6 - Fast Time Segment After Sample Point
    pub fn ftseg2(&self) -> (r: u8)
        ensures
            r as u32 == field(self.bits, 4, 3),
    {
        read_small_field(self.bits, 4, 3)
    }

    /// Bits 8:11 - Fast Time Segment Before Sample Point
    pub fn ftseg1(&self) -> (r: u8)
        ensures
            r as u32 == field(self.bits, 8, 4),
    {
        read_small_field(self.bits, 8, 4)
    }

    /// Bits 16:20 - Fast Baud Rate Prescaler
    pub fn fbrp(&self) -> (r: u8)
        ensures
            r as u32 == field(self.bits, 16, 5),
    {
        read_small_field(self.bits, 16, 5)
    }

    /// Bit 23 - Transceiver Delay Compensation
    pub fn tdc(&self) -> (r: TDC_R)
        ensures
            r.bits == (field(self.bits, 23, 1) == 1),
    {
        TDC_R { bits: read_bit(self.bits, 23) }
    }

    /// Bits 24:28 - Transceiver Delay Compensation Offset
    pub fn tdco(&self) -> (r: u8)
        ensures
            r as u32 == field(self.bits, 24, 5),
    {
        read_small_field(self.bits, 24, 5)
    }
}

impl W {
    /// A writer that starts from the reset value.
    pub fn reset() -> (r: W)
        ensures
            r.bits == MCAN_FBTP_RESET,
    {
        W { bits: MCAN_FBTP_RESET }
    }

    /// Bits 0:1 - Fast (Re) Synchronization Jump Width
    pub fn fsjw(self) -> (r: FSJW_W)
        ensures
            r.target() == self,
    {
        FSJW_W { w: self }
    }

    /// Bits 4:6 - Fast Time Segment After Sample Point
    pub fn ftseg2(self) -> (r: FTSEG2_W)
        ensures
            r.target() == self,
    {
        FTSEG2_W { w: self }
    }

    /// Bits 8:11 - Fast Time Segment Before Sample Point
    pub fn ftseg1(self) -> (r: FTSEG1_W)
        ensures
            r.target() == self,
    {
        FTSEG1_W { w: self }
    }

    /// Bits 16:20 - Fast Baud Rate Prescaler
    pub fn fbrp(self) -> (r: FBRP_W)
        ensures
            r.target() == self,
    {
        FBRP_W { w: self }
    }

    /// Bit 23 - Transceiver Delay Compensation
    pub fn tdc(self) -> (r: TDC_W)
        ensures
            r.target() == self,
    {
        TDC_W { w: self }
    }

    /// Bits 24:28 - Transceiver Delay Compensation Offset
    pub fn tdco(self) -> (r: TDCO_W)
        ensures
            r.target() == self,
    {
        TDCO_W { w: self }
    }
}

} // verus!
