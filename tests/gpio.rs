use atsamx7x_hal::gpio::{GpioExt, Periph, PinMode, Pio, PioState, Port};
use atsamx7x_hal::regs::RegOp;
use atsamx7x_hal::peripherals::Peripherals;

fn pio_of(port: Port) -> Pio {
    let mut taken = false;
    let p = Peripherals::take(&mut taken).unwrap();
    match port {
        Port::A => p.pioa,
        Port::B => p.piob,
        Port::C => p.pioc,
        Port::D => p.piod,
        Port::E => p.pioe,
    }
}


const PIOA: u32 = 0x400E_0E00;

fn run(state: &mut PioState, base: u32, ops: &[RegOp]) {
    for op in ops {
        state.apply(base, *op);
    }
}

#[test]
fn split_enables_the_controller_clock() {
    let (parts, op) = pio_of(Port::A).split();
    assert_eq!(op, RegOp::Write { addr: 0x400E_0600 + 0x10, value: 1 << 10 });
    assert_eq!(parts.p10.index(), 10);
    assert_eq!(parts.p31.index(), 31);
    assert_eq!(parts.p0.port(), Port::A);
    let (_, op) = pio_of(Port::E).split();
    assert_eq!(op, RegOp::Write { addr: 0x400E_0610, value: 1 << 17 });
}

#[test]
fn pa10_to_peripheral_a_then_open_drain() {
    let (parts, _) = pio_of(Port::A).split();
    let (pin, ops) = parts.p10.into_peripheral_a();
    assert_eq!(
        ops,
        vec![
            RegOp::Modify { addr: PIOA + 0x70, mask: 1 << 10, value: 0 },
            RegOp::Modify { addr: PIOA + 0x74, mask: 1 << 10, value: 0 },
            RegOp::Write { addr: PIOA + 0x04, value: 1 << 10 },
        ]
    );
    let mut state = PioState::reset();
    state.abcdsr0 = 0xFFFF_FFFF;
    state.abcdsr1 = 0xFFFF_FFFF;
    run(&mut state, PIOA, &ops);
    assert_eq!(state.psr & (1 << 10), 0);
    assert_eq!(state.abcdsr0 & (1 << 10), 0);
    assert_eq!(state.abcdsr1 & (1 << 10), 0);
    assert_eq!(state.mode_of(10), PinMode::Peripheral(Periph::A));

    let (pin, ops) = pin.into_open_drain_output();
    assert_eq!(
        ops,
        vec![
            RegOp::Write { addr: PIOA, value: 1 << 10 },
            RegOp::Write { addr: PIOA + 0x10, value: 1 << 10 },
            RegOp::Write { addr: PIOA + 0x50, value: 1 << 10 },
        ]
    );
    run(&mut state, PIOA, &ops);
    assert_ne!(state.psr & (1 << 10), 0);
    assert_ne!(state.osr & (1 << 10), 0);
    assert_ne!(state.mdsr & (1 << 10), 0);
    assert_eq!(state.mode_of(10), PinMode::OpenDrain);
    assert_eq!(pin.index(), 10);
}

#[test]
fn reshaping_touches_no_other_pin() {
    let (parts, _) = pio_of(Port::B).split();
    let base = 0x400E_1000;
    let before = PioState {
        psr: 0x5A5A_5A5A,
        osr: 0x0F0F_0F0F,
        pull_up: 0x3333_3333,
        pull_down: 0xCCCC_CCCC,
        abcdsr0: 0x1234_5678,
        abcdsr1: 0x8765_4321,
        odsr: 0xFFFF_0000,
        mdsr: 0x0000_FFFF,
    };
    let mask = !(1u32 << 7);
    let mut all = Vec::new();
    let (p, ops) = parts.p7.into_peripheral_d();
    all.push((ops, PinMode::Peripheral(Periph::D)));
    let (p, ops) = p.into_pull_up_input();
    all.push((ops, PinMode::PullUp));
    let (p, ops) = p.into_pull_down_input();
    all.push((ops, PinMode::PullDown));
    let (p, ops) = p.into_floating_input();
    all.push((ops, PinMode::Floating));
    let (p, ops) = p.into_open_drain_output();
    all.push((ops, PinMode::OpenDrain));
    let (p, ops) = p.into_peripheral_b();
    all.push((ops, PinMode::Peripheral(Periph::B)));
    let (_, ops) = p.into_peripheral_c();
    all.push((ops, PinMode::Peripheral(Periph::C)));
    for (ops, mode) in all {
        let mut s = before;
        run(&mut s, base, &ops);
        assert_eq!(s.mode_of(7), mode);
        assert_eq!(s.psr & mask, before.psr & mask);
        assert_eq!(s.osr & mask, before.osr & mask);
        assert_eq!(s.pull_up & mask, before.pull_up & mask);
        assert_eq!(s.pull_down & mask, before.pull_down & mask);
        assert_eq!(s.abcdsr0 & mask, before.abcdsr0 & mask);
        assert_eq!(s.abcdsr1 & mask, before.abcdsr1 & mask);
        assert_eq!(s.odsr, before.odsr);
        assert_eq!(s.mdsr & mask, before.mdsr & mask);
    }
}

#[test]
fn pull_up_input_disables_the_pull_down() {
    let (parts, _) = pio_of(Port::C).split();
    let base = 0x400E_1200;
    let (_, ops) = parts.p3.into_pull_up_input();
    let mut s = PioState::reset();
    s.pull_down = 1 << 3;
    s.osr = 1 << 3;
    run(&mut s, base, &ops);
    assert_eq!(s.pull_up, 1 << 3);
    assert_eq!(s.pull_down, 0);
    assert_eq!(s.osr, 0);
    assert_eq!(s.mode_of(3), PinMode::PullUp);
}

#[test]
fn reshape_round_trip_restores_the_mode() {
    let (parts, _) = pio_of(Port::D).split();
    let base = 0x400E_1400;
    let mut s = PioState::reset();
    let (pin, ops) = parts.p20.into_pull_down_input();
    run(&mut s, base, &ops);
    let first = s;
    let (pin, ops) = pin.into_peripheral_c();
    run(&mut s, base, &ops);
    assert_eq!(s.mode_of(20), PinMode::Peripheral(Periph::C));
    let (_, ops) = pin.into_pull_down_input();
    run(&mut s, base, &ops);
    assert_eq!(s.mode_of(20), first.mode_of(20));
    assert_eq!(s.mode_of(20), PinMode::PullDown);
}

#[test]
fn output_pin_writes_and_reads() {
    let (parts, _) = pio_of(Port::C).split();
    let base = 0x400E_1200;
    let (pin, _) = parts.p19.into_open_drain_output();
    assert_eq!(pin.set_high(), RegOp::Write { addr: base + 0x30, value: 1 << 19 });
    assert_eq!(pin.set_low(), RegOp::Write { addr: base + 0x34, value: 1 << 19 });
    assert!(pin.is_set_high(1 << 19));
    assert!(pin.is_set_low(!(1 << 19)));
    assert_eq!(pin.toggle(1 << 19), RegOp::Write { addr: base + 0x34, value: 1 << 19 });
    assert_eq!(pin.toggle(0), RegOp::Write { addr: base + 0x30, value: 1 << 19 });
    let mut s = PioState::reset();
    s.apply(base, pin.set_high());
    assert_eq!(s.odsr, 1 << 19);
}

#[test]
fn input_pin_reads() {
    let (parts, _) = pio_of(Port::A).split();
    let pin = parts.p0;
    assert!(pin.is_high(1));
    assert!(pin.is_low(0xFFFF_FFFE));
    let (pin, _) = parts.p31.into_floating_input();
    assert!(pin.is_high(0x8000_0000));
    assert!(!pin.is_high(0x7FFF_FFFF));
}

#[test]
fn peripherals_are_handed_out_once() {
    let mut taken = false;
    let p = Peripherals::take(&mut taken).unwrap();
    assert!(taken);
    assert!(Peripherals::take(&mut taken).is_none());
    let (parts, _) = p.piod.split();
    assert_eq!(parts.p5.port(), Port::D);
}
