//! Flash command register (EEFC_FCR) of the enhanced embedded flash controller.
use vstd::prelude::*;

use crate::bitfield::{field_written, write_field};

verus! {

/// Value of the register after reset.
pub const EEFC_FCR_RESET: u32 = 0;

/// Value that the key field must hold for a command to be accepted.
pub const FKEY_PASSWD: u8 = 0x5a;

/// Writer for register EEFC_FCR: the word that a write will store.
#[derive(Clone, Copy, Debug, PartialEq, Eq)]
pub struct W {
    pub bits: u32,
}

impl W {
    /// A writer that starts from the reset value.
    pub fn reset() -> (r: W)
        ensures
            r.bits == EEFC_FCR_RESET,
    {
        W { bits: EEFC_FCR_RESET }
    }

    /// Bits 0:7 - Flash Command
    pub fn fcmd(self) -> (r: FCMD_W)
        ensures
            r.target() == self,
    {
        FCMD_W { w: self }
    }

    /// Bits 8:23 - Flash Command Argument
    pub fn farg(self) -> (r: FARG_W)
        ensures
            r.target() == self,
    {
        FARG_W { w: self }
    }

    /// Bits 24:31 - Flash Writing Protection Key
    pub fn fkey(self) -> (r: FKEY_W)
        ensures
            r.target() == self,
    {
        FKEY_W { w: self }
    }
}

/// Flash Command
#[derive(Clone, Copy, Debug, PartialEq, Eq)]
pub enum FCMD_AW {
    /// 0: Get Flash descriptor
    GETD,
    /// 1: Write page
    WP,
    /// 2: Write page and lock
    WPL,
    /// 3: Erase page and write page
    EWP,
    /// 4: Erase page and write page then lock
    EWPL,
    /// 5: Erase all
    EA,
    /// 7: Erase pages
    EPA,
    /// 8: Set lock bit
    SLB,
    /// 9: Clear lock bit
    CLB,
    /// 10: Get lock bit
    GLB,
    /// 11: Set GPNVM bit
    SGPB,
    /// 12: Clear GPNVM bit
    CGPB,
    /// 13: Get GPNVM bit
    GGPB,
    /// 14: Start read unique identifier
    STUI,
    /// 15: Stop read unique identifier
    SPUI,
    /// 16: Get CALIB bit
    GCALB,
    /// 17: Erase sector
    ES,
    /// 18: Write user signature
    WUS,
    /// 19: Erase user signature
    EUS,
    /// 20: Start read user signature
    STUS,
    /// 21: Stop read user signature
    SPUS,
}

impl FCMD_AW {
    /// The code that the command field holds for this command.
    pub open spec fn spec_code(self) -> u8 {
        match self {
            FCMD_AW::GETD => 0,
            FCMD_AW::WP => 1,
            FCMD_AW::WPL => 2,
            FCMD_AW::EWP => 3,
            FCMD_AW::EWPL => 4,
            FCMD_AW::EA => 5,
            FCMD_AW::EPA => 7,
            FCMD_AW::SLB => 8,
            FCMD_AW::CLB => 9,
            FCMD_AW::GLB => 10,
            FCMD_AW::SGPB => 11,
            FCMD_AW::CGPB => 12,
            FCMD_AW::GGPB => 13,
            FCMD_AW::STUI => 14,
            FCMD_AW::SPUI => 15,
            FCMD_AW::GCALB => 16,
            FCMD_AW::ES => 17,
            FCMD_AW::WUS => 18,
            FCMD_AW::EUS => 19,
            FCMD_AW::STUS => 20,
            FCMD_AW::SPUS => 21,
        }
    }

    /// The code that the command field holds for this command.
    pub fn code(self) -> (r: u8)
        ensures
            r == self.spec_code(),
    {
        match self {
            FCMD_AW::GETD => 0,
            FCMD_AW::WP => 1,
            FCMD_AW::WPL => 2,
            FCMD_AW::EWP => 3,
            FCMD_AW::EWPL => 4,
            FCMD_AW::EA => 5,
            FCMD_AW::EPA => 7,
            FCMD_AW::SLB => 8,
            FCMD_AW::CLB => 9,
            FCMD_AW::GLB => 10,
            FCMD_AW::SGPB => 11,
            FCMD_AW::CGPB => 12,
            FCMD_AW::GGPB => 13,
            FCMD_AW::STUI => 14,
            FCMD_AW::SPUI => 15,
            FCMD_AW::GCALB => 16,
            FCMD_AW::ES => 17,
            FCMD_AW::WUS => 18,
            FCMD_AW::EUS => 19,
            FCMD_AW::STUS => 20,
            FCMD_AW::SPUS => 21,
        }
    }
}

/// `new` is `old` with the command field holding `code`.
pub open spec fn fcmd_written(old: W, new: W, code: u8) -> bool {
    field_written(old.bits, new.bits, 0, 8, code as u32)
}

/// Write proxy for field `FCMD`
pub struct FCMD_W {
    w: W,
}

impl FCMD_W {
    /// The writer this proxy writes into.
    pub closed spec fn target(self) -> W {
        self.w
    }

    /// Writes `variant` to the field
    pub fn variant(self, variant: FCMD_AW) -> (r: W)
        ensures
            fcmd_written(self.target(), r, variant.spec_code()),
    {
        self.bits(variant.code())
    }

    /// Get Flash descriptor
    pub fn getd(self) -> (r: W)
        ensures
            fcmd_written(self.target(), r, FCMD_AW::GETD.spec_code()),
    {
        self.variant(FCMD_AW::GETD)
    }

    /// Write page
    pub fn wp(self) -> (r: W)
        ensures
            fcmd_written(self.target(), r, FCMD_AW::WP.spec_code()),
    {
        self.variant(FCMD_AW::WP)
    }

    /// Write page and lock
    pub fn wpl(self) -> (r: W)
        ensures
            fcmd_written(self.target(), r, FCMD_AW::WPL.spec_code()),
    {
        self.variant(FCMD_AW::WPL)
    }

    /// Erase page and write page
    pub fn ewp(self) -> (r: W)
        ensures
            fcmd_written(self.target(), r, FCMD_AW::EWP.spec_code()),
    {
        self.variant(FCMD_AW::EWP)
    }

    /// Erase page and write page then lock
    pub fn ewpl(self) -> (r: W)
        ensures
            fcmd_written(self.target(), r, FCMD_AW::EWPL.spec_code()),
    {
        self.variant(FCMD_AW::EWPL)
    }

    /// Erase all
    pub fn ea(self) -> (r: W)
        ensures
            fcmd_written(self.target(), r, FCMD_AW::EA.spec_code()),
    {
        self.variant(FCMD_AW::EA)
    }

    /// Erase pages
    pub fn epa(self) -> (r: W)
        ensures
            fcmd_written(self.target(), r, FCMD_AW::EPA.spec_code()),
    {
        self.variant(FCMD_AW::EPA)
    }

    /// Set lock bit
    pub fn slb(self) -> (r: W)
        ensures
            fcmd_written(self.target(), r, FCMD_AW::SLB.spec_code()),
    {
        self.variant(FCMD_AW::SLB)
    }

    /// Clear lock bit
    pub fn clb(self) -> (r: W)
        ensures
            fcmd_written(self.target(), r, FCMD_AW::CLB.spec_code()),
    {
        self.variant(FCMD_AW::CLB)
    }

    /// Get lock bit
    pub fn glb(self) -> (r: W)
        ensures
            fcmd_written(self.target(), r, FCMD_AW::GLB.spec_code()),
    {
        self.variant(FCMD_AW::GLB)
    }

    /// Set GPNVM bit
    pub fn sgpb(self) -> (r: W)
        ensures
            fcmd_written(self.target(), r, FCMD_AW::SGPB.spec_code()),
    {
        self.variant(FCMD_AW::SGPB)
    }

    /// Clear GPNVM bit
    pub fn cgpb(self) -> (r: W)
        ensures
            fcmd_written(self.target(), r, FCMD_AW::CGPB.spec_code()),
    {
        self.variant(FCMD_AW::CGPB)
    }

    /// Get GPNVM bit
    pub fn ggpb(self) -> (r: W)
        ensures
            fcmd_written(self.target(), r, FCMD_AW::GGPB.spec_code()),
    {
        self.variant(FCMD_AW::GGPB)
    }

    /// Start read unique identifier
    pub fn stui(self) -> (r: W)
        ensures
            fcmd_written(self.target(), r, FCMD_AW::STUI.spec_code()),
    {
        self.variant(FCMD_AW::STUI)
    }

    /// Stop read unique identifier
    pub fn spui(self) -> (r: W)
        ensures
            fcmd_written(self.target(), r, FCMD_AW::SPUI.spec_code()),
    {
        self.variant(FCMD_AW::SPUI)
    }

    /// Get CALIB bit
    pub fn gcalb(self) -> (r: W)
        ensures
            fcmd_written(self.target(), r, FCMD_AW::GCALB.spec_code()),
    {
        self.variant(FCMD_AW::GCALB)
    }

    /// Erase sector
    pub fn es(self) -> (r: W)
        ensures
            fcmd_written(self.target(), r, FCMD_AW::ES.spec_code()),
    {
        self.variant(FCMD_AW::ES)
    }

    /// Write user signature
    pub fn wus(self) -> (r: W)
        ensures
            fcmd_written(self.target(), r, FCMD_AW::WUS.spec_code()),
    {
        self.variant(FCMD_AW::WUS)
    }

    /// Erase user signature
    pub fn eus(self) -> (r: W)
        ensures
            fcmd_written(self.target(), r, FCMD_AW::EUS.spec_code()),
    {
        self.variant(FCMD_AW::EUS)
    }

    /// Start read user signature
    pub fn stus(self) -> (r: W)
        ensures
            fcmd_written(self.target(), r, FCMD_AW::STUS.spec_code()),
    {
        self.variant(FCMD_AW::STUS)
    }

    /// Stop read user signature
    pub fn spus(self) -> (r: W)
        ensures
            fcmd_written(self.target(), r, FCMD_AW::SPUS.spec_code()),
    {
        self.variant(FCMD_AW::SPUS)
    }

    /// Writes raw bits to the field
    pub fn bits(self, value: u8) -> (r: W)
        ensures
            fcmd_written(self.target(), r, value),
    {
        W { bits: write_field(self.w.bits, 0, 8, value as u32) }
    }
}

/// Write proxy for field `FARG`
pub struct FARG_W {
    w: W,
}

impl FARG_W {
    /// The writer this proxy writes into.
    pub closed spec fn target(self) -> W {
        self.w
    }

    /// Writes raw bits to the field
    pub fn bits(self, value: u16) -> (r: W)
        ensures
            field_written(self.target().bits, r.bits, 8, 16, value as u32),
    {
        W { bits: write_field(self.w.bits, 8, 16, value as u32) }
    }
}

/// Flash Writing Protection Key
#[derive(Clone, Copy, Debug, PartialEq, Eq)]
pub enum FKEY_AW {
    /// 0x5A enables the command defined by the bits of the register; with
    /// any other key the write is not performed and no action is started.
    PASSWD,
}

impl FKEY_AW {
    /// The value that the key field holds for this key.
    pub open spec fn spec_code(self) -> u8 {
        match self {
            FKEY_AW::PASSWD => FKEY_PASSWD,
        }
    }

    /// The value that the key field holds for this key.
    pub fn code(self) -> (r: u8)
        ensures
            r == self.spec_code(),
    {
        match self {
            FKEY_AW::PASSWD => FKEY_PASSWD,
        }
    }
}

/// Write proxy for field `FKEY`
pub struct FKEY_W {
    w: W,
}

impl FKEY_W {
    /// The writer this proxy writes into.
    pub closed spec fn target(self) -> W {
        self.w
    }

    /// Writes `variant` to the field
    pub fn variant(self, variant: FKEY_AW) -> (r: W)
        ensures
            field_written(self.target().bits, r.bits, 24, 8, variant.spec_code() as u32),
    {
        self.bits(variant.code())
    }

    /// Writes the key that lets the command through.
    pub fn passwd(self) -> (r: W)
        ensures
            field_written(self.target().bits, r.bits, 24, 8, FKEY_PASSWD as u32),
    {
        self.variant(FKEY_AW::PASSWD)
    }

    /// Writes raw bits to the field
    pub fn bits(self, value: u8) -> (r: W)
        ensures
            field_written(self.target().bits, r.bits, 24, 8, value as u32),
    {
        W { bits: write_field(self.w.bits, 24, 8, value as u32) }
    }
}

} // verus!
