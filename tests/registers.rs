use atsamx7x_hal::eefc_fcr;
use atsamx7x_hal::mcan_fbtp;
use atsamx7x_hal::mcan_psr;
use atsamx7x_hal::util::{delayms, start_rtt};
use atsamx7x_hal::regs::RegOp;

#[test]
fn flash_command_with_key() {
    let w = eefc_fcr::W::reset().fcmd().ea();
    assert_eq!(w.bits, 5);
    let w = w.fkey().passwd();
    assert_eq!(w.bits, 0x5A00_0005);
    let w = w.farg().bits(0x1234);
    assert_eq!(w.bits, 0x5A12_3405);
    let w = w.fcmd().epa();
    assert_eq!(w.bits, 0x5A12_3407);
}

#[test]
fn flash_command_codes() {
    let codes = [
        (eefc_fcr::W::reset().fcmd().getd(), 0),
        (eefc_fcr::W::reset().fcmd().wp(), 1),
        (eefc_fcr::W::reset().fcmd().wpl(), 2),
        (eefc_fcr::W::reset().fcmd().ewp(), 3),
        (eefc_fcr::W::reset().fcmd().ewpl(), 4),
        (eefc_fcr::W::reset().fcmd().slb(), 8),
        (eefc_fcr::W::reset().fcmd().clb(), 9),
        (eefc_fcr::W::reset().fcmd().glb(), 10),
        (eefc_fcr::W::reset().fcmd().sgpb(), 11),
        (eefc_fcr::W::reset().fcmd().cgpb(), 12),
        (eefc_fcr::W::reset().fcmd().ggpb(), 13),
        (eefc_fcr::W::reset().fcmd().stui(), 14),
        (eefc_fcr::W::reset().fcmd().spui(), 15),
        (eefc_fcr::W::reset().fcmd().gcalb(), 16),
        (eefc_fcr::W::reset().fcmd().es(), 17),
        (eefc_fcr::W::reset().fcmd().wus(), 18),
        (eefc_fcr::W::reset().fcmd().eus(), 19),
        (eefc_fcr::W::reset().fcmd().stus(), 20),
        (eefc_fcr::W::reset().fcmd().spus(), 21),
    ];
    for (w, code) in codes {
        assert_eq!(w.bits, code);
    }
    let w = eefc_fcr::W { bits: 0xFFFF_FFFF }.fcmd().variant(eefc_fcr::FCMD_AW::GETD);
    assert_eq!(w.bits, 0xFFFF_FF00);
    assert_eq!(eefc_fcr::FCMD_AW::SPUS.code(), 21);
}

#[test]
fn can_bit_timing_fields() {
    let w = mcan_fbtp::W::reset()
        .fsjw()
        .bits(0x3)
        .ftseg2()
        .bits(0x5)
        .ftseg1()
        .bits(0xA)
        .fbrp()
        .bits(0x11)
        .tdc()
        .enabled()
        .tdco()
        .bits(0x1F);
    assert_eq!(w.bits, 0x3 | (0x5 << 4) | (0xA << 8) | (0x11 << 16) | (1 << 23) | (0x1F << 24));
    let r = mcan_fbtp::R { bits: w.bits };
    assert_eq!(r.fsjw(), 3);
    assert_eq!(r.ftseg2(), 5);
    assert_eq!(r.ftseg1(), 0xA);
    assert_eq!(r.fbrp(), 0x11);
    assert!(r.tdc().is_enabled());
    assert_eq!(r.tdc().variant(), mcan_fbtp::TDC_A::ENABLED);
    assert_eq!(r.tdco(), 0x1F);
    // a value too wide for its field keeps only the bits that fit
    let w = mcan_fbtp::W::reset().fsjw().bits(0xFF);
    assert_eq!(w.bits, 0x3);
    let w = mcan_fbtp::W { bits: 0xFFFF_FFFF }.tdc().disabled();
    assert_eq!(w.bits, !(1 << 23));
    assert!(mcan_fbtp::R { bits: w.bits }.tdc().is_disabled());
    let w = w.tdc().set_bit().tdc().clear_bit().tdc().bit(true).tdc().variant(mcan_fbtp::TDC_A::DISABLED);
    assert_eq!(w.bits, !(1 << 23));
}

#[test]
fn can_protocol_status_fields() {
    let r = mcan_psr::R { bits: 0b10_1110_1110_1100 };
    assert_eq!(r.lec().variant(), mcan_psr::LEC_A::BIT1_ERROR);
    assert!(r.lec().is_bit1_error());
    assert!(!r.lec().is_no_error());
    assert_eq!(r.act().variant(), mcan_psr::ACT_A::IDLE);
    assert!(r.act().is_idle());
    assert!(r.ep());
    assert!(r.ew());
    assert!(r.bo());
    assert_eq!(r.flec(), 0b110);
    assert!(r.resi());
    assert!(!r.rbrs());
    assert!(r.redl());
    let r = mcan_psr::R { bits: 0x7 | (3 << 3) };
    assert!(r.lec().is_no_change());
    assert_eq!(r.lec().bits(), 7);
    assert!(r.act().is_transmitter());
    assert!(mcan_psr::R { bits: 0x6 }.lec().is_crc_error());
    assert!(mcan_psr::R { bits: 0x5 }.lec().is_bit0_error());
    assert!(mcan_psr::R { bits: 0x3 }.lec().is_ack_error());
    assert!(mcan_psr::R { bits: 0x2 }.lec().is_form_error());
    assert!(mcan_psr::R { bits: 0x1 }.lec().is_stuff_error());
    assert!(mcan_psr::R { bits: 0x2 << 3 }.act().is_receiver());
    assert!(mcan_psr::R { bits: 0 }.act().is_synchronizing());
}

#[test]
fn delay_restarts_the_timer_then_waits() {
    let ops = delayms(500);
    assert_eq!(
        ops,
        vec![
            RegOp::Write { addr: 0x400E_1830, value: 0x20 | (1 << 18) },
            RegOp::WaitAtLeast { addr: 0x400E_1838, value: 500 },
        ]
    );
    assert_eq!(start_rtt(1), RegOp::Write { addr: 0x400E_1830, value: 1 | (1 << 18) });
}
