//! Protocol status register (MCAN_PSR) of the CAN controller.
use vstd::prelude::*;

use crate::bitfield::{field, read_bit, read_small_field};

verus! {

/// Reader of register MCAN_PSR: a word read from it.
#[derive(Clone, Copy, Debug, PartialEq, Eq)]
pub struct R {
    pub bits: u32,
}

/// Last Error Code (set to 111 on read)
#[derive(Clone, Copy, Debug, PartialEq, Eq)]
pub enum LEC_A {
    /// 0: No error occurred since LEC has been reset by successful reception or transmission.
    NO_ERROR,
    /// 1: More than 5 equal bits in a sequence have occurred in a part of a received message where this is not allowed.
    STUFF_ERROR,
    /// 2: A fixed format part of a received frame has the wrong format.
    FORM_ERROR,
    /// 3: The message transmitted by the MCAN was not acknowledged by another node.
    ACK_ERROR,
    /// 4: The device wanted to send a recessive level, but the monitored bus value was dominant.
    BIT1_ERROR,
    /// 5: The device wanted to send a dominant level, but the monitored bus value was recessive.
    BIT0_ERROR,
    /// 6: The CRC check sum of a received message was incorrect.
    CRC_ERROR,
    /// 7: No CAN bus event was detected since the last processor read access to the register.
    NO_CHANGE,
}

impl LEC_A {
    /// The field value that stands for this variant.
    pub open spec fn spec_code(self) -> u8 {
        match self {
            LEC_A::NO_ERROR => 0,
            LEC_A::STUFF_ERROR => 1,
            LEC_A::FORM_ERROR => 2,
            LEC_A::ACK_ERROR => 3,
            LEC_A::BIT1_ERROR => 4,
            LEC_A::BIT0_ERROR => 5,
            LEC_A::CRC_ERROR => 6,
            LEC_A::NO_CHANGE => 7,
        }
    }
}

/// Reader of field `LEC`
#[derive(Clone, Copy, Debug, PartialEq, Eq)]
pub struct LEC_R {
    bits: u8,
}

impl LEC_R {
    #[verifier::type_invariant]
    spec fn fits(self) -> bool {
        self.bits < 8
    }

    /// The value the field was read as.
    pub closed spec fn value(self) -> u8 {
        self.bits
    }

    /// The value the field was read as.
    pub fn bits(&self) -> (r: u8)
        ensures
            r == self.value(),
            r < 8,
    {
        proof {
            use_type_invariant(self);
        }
        self.bits
    }

    /// Get enumerated values variant
    pub fn variant(&self) -> (r: LEC_A)
        ensures
            r.spec_code() == self.value(),
    {
        proof {
            use_type_invariant(self);
        }
        match self.bits {
            0 => LEC_A::NO_ERROR,
            1 => LEC_A::STUFF_ERROR,
            2 => LEC_A::FORM_ERROR,
            3 => LEC_A::ACK_ERROR,
            4 => LEC_A::BIT1_ERROR,
            5 => LEC_A::BIT0_ERROR,
            6 => LEC_A::CRC_ERROR,
            _ => LEC_A::NO_CHANGE,
        }
    }

    /// Checks if the value of the field is `NO_ERROR`
    pub fn is_no_error(&self) -> (r: bool)
        ensures
            r == (self.value() == 0),
    {
        self.bits == 0
    }

    /// Checks if the value of the field is `STUFF_ERROR`
    pub fn is_stuff_error(&self) -> (r: bool)
        ensures
            r == (self.value() == 1),
    {
        self.bits == 1
    }

    /// Checks if the value of the field is `FORM_ERROR`
    pub fn is_form_error(&self) -> (r: bool)
        ensures
            r == (self.value() == 2),
    {
        self.bits == 2
    }

    /// Checks if the value of the field is `ACK_ERROR`
    pub fn is_ack_error(&self) -> (r: bool)
        ensures
            r == (self.value() == 3),
    {
        self.bits == 3
    }

    /// Checks if the value of the field is `BIT1_ERROR`
    pub fn is_bit1_error(&self) -> (r: bool)
        ensures
            r == (self.value() == 4),
    {
        self.bits == 4
    }

    /// Checks if the value of the field is `BIT0_ERROR`
    pub fn is_bit0_error(&self) -> (r: bool)
        ensures
            r == (self.value() == 5),
    {
        self.bits == 5
    }

    /// Checks if the value of the field is `CRC_ERROR`
    pub fn is_crc_error(&self) -> (r: bool)
        ensures
            r == (self.value() == 6),
    {
        self.bits == 6
    }

    /// Checks if the value of the field is `NO_CHANGE`
    pub fn is_no_change(&self) -> (r: bool)
        ensures
            r == (self.value() == 7),
    {
        self.bits == 7
    }
}

/// Activity
#[derive(Clone, Copy, Debug, PartialEq, Eq)]
pub enum ACT_A {
    /// 0: Node is synchronizing on CAN communication
    SYNCHRONIZING,
    /// 1: Node is neither receiver nor transmitter
    IDLE,
    /// 2: Node is operating as receiver
    RECEIVER,
    /// 3: Node is operating as transmitter
    TRANSMITTER,
}

impl ACT_A {
    /// The field value that stands for this variant.
    pub open spec fn spec_code(self) -> u8 {
        match self {
            ACT_A::SYNCHRONIZING => 0,
            ACT_A::IDLE => 1,
            ACT_A::RECEIVER => 2,
            ACT_A::TRANSMITTER => 3,
        }
    }
}

/// Reader of field `ACT`
#[derive(Clone, Copy, Debug, PartialEq, Eq)]
pub struct ACT_R {
    bits: u8,
}

impl ACT_R {
    #[verifier::type_invariant]
    spec fn fits(self) -> bool {
        self.bits < 4
    }

    /// The value the field was read as.
    pub closed spec fn value(self) -> u8 {
        self.bits
    }

    /// The value the field was read as.
    pub fn bits(&self) -> (r: u8)
        ensures
            r == self.value(),
            r < 4,
    {
        proof {
            use_type_invariant(self);
        }
        self.bits
    }

    /// Get enumerated values variant
    pub fn variant(&self) -> (r: ACT_A)
        ensures
            r.spec_code() == self.value(),
    {
        proof {
            use_type_invariant(self);
        }
        match self.bits {
            0 => ACT_A::SYNCHRONIZING,
            1 => ACT_A::IDLE,
            2 => ACT_A::RECEIVER,
            _ => ACT_A::TRANSMITTER,
        }
    }

    /// Checks if the value of the field is `SYNCHRONIZING`
    pub fn is_synchronizing(&self) -> (r: bool)
        ensures
            r == (self.value() == 0),
    {
        self.bits == 0
    }

    /// Checks if the value of the field is `IDLE`
    pub fn is_idle(&self) -> (r: bool)
        ensures
            r == (self.value() == 1),
    {
        self.bits == 1
    }

    /// Checks if the value of the field is `RECEIVER`
    pub fn is_receiver(&self) -> (r: bool)
        ensures
            r == (self.value() == 2),
    {
        self.bits == 2
    }

    /// Checks if the value of the field is `TRANSMITTER`
    pub fn is_transmitter(&self) -> (r: bool)
        ensures
            r == (self.value() == 3),
    {
        self.bits == 3
    }
}

impl R {
    /// Bits 0:2 - Last Error Code (set to 111 on read)
    pub fn lec(&self) -> (r: LEC_R)
        ensures
            r.value() as u32 == field(self.bits, 0, 3),
    {
        let v = read_small_field(self.bits, 0, 3);
        let b = self.bits;
        assert(field(b, 0, 3) < 8) by (bit_vector);
        LEC_R { bits: v }
    }

    /// Bits 3:4 - Activity
    pub fn act(&self) -> (r: ACT_R)
        ensures
            r.value() as u32 == field(self.bits, 3, 2),
    {
        let v = read_small_field(self.bits, 3, 2);
        let b = self.bits;
        assert(field(b, 3, 2) < 4) by (bit_vector);
        ACT_R { bits: v }
    }

    /// Bit 5 - Error Passive
    pub fn ep(&self) -> (r: bool)
        ensures
            r == (field(self.bits, 5, 1) == 1),
    {
        read_bit(self.bits, 5)
    }

    /// Bit 6 - Warning Status
    pub fn ew(&self) -> (r: bool)
        ensures
            r == (field(self.bits, 6, 1) == 1),
    {
        read_bit(self.bits, 6)
    }

    /// Bit 7 - Bus_Off Status
    pub fn bo(&self) -> (r: bool)
        ensures
            r == (field(self.bits, 7, 1) == 1),
    {
        read_bit(self.bits, 7)
    }

    /// Bits 8:10 - Fast Last Error Code (set to 111 on read)
    pub fn flec(&self) -> (r: u8)
        ensures
            r as u32 == field(self.bits, 8, 3),
    {
        read_small_field(self.bits, 8, 3)
    }

    /// Bit 11 - ESI Flag of Last Received CAN FD Message (cleared on read)
    pub fn resi(&self) -> (r: bool)
        ensures
            r == (field(self.bits, 11, 1) == 1),
    {
        read_bit(self.bits, 11)
    }

    /// Bit 12 - BRS Flag of Last Received CAN FD Message (cleared on read)
    pub fn rbrs(&self) -> (r: bool)
        ensures
            r == (field(self.bits, 12, 1) == 1),
    {
        read_bit(self.bits, 12)
    }

    /// Bit 13 - Received a CAN FD Message (cleared on read)
    pub fn redl(&self) -> (r: bool)
        ensures
            r == (field(self.bits, 13, 1) == 1),
    {
        read_bit(self.bits, 13)
    }
}

} // verus!
