//! Pins of the PIO controllers, each in one electrical mode at a time.
//!
//! A pin handle carries its mode in its type. Reshaping consumes the handle
//! and returns one of the new mode, together with the register accesses that
//! put the controller in that mode. `PioState` models what the controller
//! reads back, so the effect of those accesses can be stated and checked.
use core::marker::PhantomData;
use vstd::prelude::*;

use crate::regs::{enable_clock_op, spec_enable_clock_op, RegOp};

verus! {

/// PIO enable register: hands the pins to the PIO controller.
pub const PIO_PER: u32 = 0x00;
/// PIO disable register: hands the pins to a peripheral.
pub const PIO_PDR: u32 = 0x04;
/// Output enable register.
pub const PIO_OER: u32 = 0x10;
/// Output disable register.
pub const PIO_ODR: u32 = 0x14;
/// Set output data register.
pub const PIO_SODR: u32 = 0x30;
/// Clear output data register.
pub const PIO_CODR: u32 = 0x34;
/// Output data status register.
pub const PIO_ODSR: u32 = 0x38;
/// Pin data status register.
pub const PIO_PDSR: u32 = 0x3C;
/// Multi-driver (open drain) enable register.
pub const PIO_MDER: u32 = 0x50;
/// Multi-driver (open drain) disable register.
pub const PIO_MDDR: u32 = 0x54;
/// Pull-up disable register.
pub const PIO_PUDR: u32 = 0x60;
/// Pull-up enable register.
pub const PIO_PUER: u32 = 0x64;
/// Peripheral select register, low bit of the A-D selection.
pub const PIO_ABCDSR0: u32 = 0x70;
/// Peripheral select register, high bit of the A-D selection.
pub const PIO_ABCDSR1: u32 = 0x74;
/// Pull-down disable register.
pub const PIO_PPDDR: u32 = 0x90;
/// Pull-down enable register.
pub const PIO_PPDER: u32 = 0x94;

/// One of the five PIO controllers.
#[derive(Clone, Copy, Debug, PartialEq, Eq, Structural)]
pub enum Port {
    A,
    B,
    C,
    D,
    E,
}

impl Port {
    /// Base address of the controller's registers.
    pub open spec fn spec_base(self) -> u32 {
        match self {
            Port::A => 0x400E_0E00,
            Port::B => 0x400E_1000,
            Port::C => 0x400E_1200,
            Port::D => 0x400E_1400,
            Port::E => 0x400E_1600,
        }
    }

    /// Base address of the controller's registers.
    pub fn base(self) -> (r: u32)
        ensures
            r == self.spec_base(),
    {
        match self {
            Port::A => 0x400E_0E00,
            Port::B => 0x400E_1000,
            Port::C => 0x400E_1200,
            Port::D => 0x400E_1400,
            Port::E => 0x400E_1600,
        }
    }

    /// Peripheral id of the controller in the power management controller.
    pub open spec fn spec_pid(self) -> u32 {
        match self {
            Port::A => 10,
            Port::B => 11,
            Port::C => 12,
            Port::D => 16,
            Port::E => 17,
        }
    }

    /// Peripheral id of the controller in the power management controller.
    pub fn pid(self) -> (r: u32)
        ensures
            r == self.spec_pid(),
    {
        match self {
            Port::A => 10,
            Port::B => 11,
            Port::C => 12,
            Port::D => 16,
            Port::E => 17,
        }
    }
}

/// Which of the four peripherals a multiplexed pin belongs to.
#[derive(Clone, Copy, Debug, PartialEq, Eq, Structural)]
pub enum Periph {
    A,
    B,
    C,
    D,
}

impl Periph {
    /// The low bit of the selection (ABCDSR[0]).
    pub open spec fn spec_sel0(self) -> bool {
        self == Periph::B || self == Periph::D
    }

    /// The high bit of the selection (ABCDSR[1]).
    pub open spec fn spec_sel1(self) -> bool {
        self == Periph::C || self == Periph::D
    }
}

/// The electrical mode of a pin.
#[derive(Clone, Copy, Debug, PartialEq, Eq, Structural)]
pub enum PinMode {
    Floating,
    PullUp,
    PullDown,
    OpenDrain,
    Peripheral(Periph),
}

/// Input mode (type state)
pub struct Input<MODE> {
    _mode: PhantomData<MODE>,
}

/// Floating input (type state)
pub struct Floating;

/// Pulled down input (type state)
pub struct PullDown;

/// Pulled up input (type state)
pub struct PullUp;

/// Output mode (type state)
pub struct Output<MODE> {
    _mode: PhantomData<MODE>,
}

/// Open drain output (type state)
pub struct OpenDrain;

/// Peripheral controlled mode (type state)
pub struct PeripheralCntr<MODE> {
    _mode: PhantomData<MODE>,
}

/// Peripheral multiplexer device 0 (type state)
pub struct PeriphA;

/// Peripheral multiplexer device 1 (type state)
pub struct PeriphB;

/// Peripheral multiplexer device 2 (type state)
pub struct PeriphC;

/// Peripheral multiplexer device 3 (type state)
pub struct PeriphD;

/// A type state that names a pin mode.
pub trait ModeTag {
    /// The mode this type state stands for.
    spec fn spec_mode() -> PinMode;

    /// The mode this type state stands for.
    fn mode() -> (r: PinMode)
        ensures
            r == Self::spec_mode(),
    ;
}

impl ModeTag for Input<Floating> {
    open spec fn spec_mode() -> PinMode {
        PinMode::Floating
    }

    fn mode() -> (r: PinMode) {
        PinMode::Floating
    }
}

impl ModeTag for Input<PullUp> {
    open spec fn spec_mode() -> PinMode {
        PinMode::PullUp
    }

    fn mode() -> (r: PinMode) {
        PinMode::PullUp
    }
}

impl ModeTag for Input<PullDown> {
    open spec fn spec_mode() -> PinMode {
        PinMode::PullDown
    }

    fn mode() -> (r: PinMode) {
        PinMode::PullDown
    }
}

impl ModeTag for Output<OpenDrain> {
    open spec fn spec_mode() -> PinMode {
        PinMode::OpenDrain
    }

    fn mode() -> (r: PinMode) {
        PinMode::OpenDrain
    }
}

impl ModeTag for PeripheralCntr<PeriphA> {
    open spec fn spec_mode() -> PinMode {
        PinMode::Peripheral(Periph::A)
    }

    fn mode() -> (r: PinMode) {
        PinMode::Peripheral(Periph::A)
    }
}

impl ModeTag for PeripheralCntr<PeriphB> {
    open spec fn spec_mode() -> PinMode {
        PinMode::Peripheral(Periph::B)
    }

    fn mode() -> (r: PinMode) {
        PinMode::Peripheral(Periph::B)
    }
}

impl ModeTag for PeripheralCntr<PeriphC> {
    open spec fn spec_mode() -> PinMode {
        PinMode::Peripheral(Periph::C)
    }

    fn mode() -> (r: PinMode) {
        PinMode::Peripheral(Periph::C)
    }
}

impl ModeTag for PeripheralCntr<PeriphD> {
    open spec fn spec_mode() -> PinMode {
        PinMode::Peripheral(Periph::D)
    }

    fn mode() -> (r: PinMode) {
        PinMode::Peripheral(Periph::D)
    }
}

/// Whether bit `i` of `x` is set.
pub open spec fn bit_set(x: u32, i: u32) -> bool {
    x & (1u32 << i) != 0
}

/// `x` with bit `i` set or cleared.
pub open spec fn with_bit(x: u32, i: u32, v: bool) -> u32 {
    if v {
        x | (1u32 << i)
    } else {
        x & !(1u32 << i)
    }
}

/// What a PIO controller reads back, one bit per pin in each word.
#[derive(Clone, Copy, Debug, PartialEq, Eq, Structural)]
pub struct PioState {
    /// Set where the PIO controller, not a peripheral, drives the pin.
    pub psr: u32,
    /// Set where the output driver is enabled.
    pub osr: u32,
    /// Set where the pull-up resistor is enabled.
    pub pull_up: u32,
    /// Set where the pull-down resistor is enabled.
    pub pull_down: u32,
    /// Low bit of the peripheral selection.
    pub abcdsr0: u32,
    /// High bit of the peripheral selection.
    pub abcdsr1: u32,
    /// Level the output driver drives.
    pub odsr: u32,
    /// Set where the output driver is open drain (multi-driver).
    pub mdsr: u32,
}

/// Bits that a write of `v` sets in `x`, for a set register.
pub open spec fn set_bits(x: u32, v: u32) -> u32 {
    x | v
}

/// Bits that a write of `v` clears in `x`, for a clear register.
pub open spec fn clear_bits(x: u32, v: u32) -> u32 {
    x & !v
}

/// `x` after a masked write of `value` under `mask`.
pub open spec fn masked(x: u32, mask: u32, value: u32) -> u32 {
    (x & !mask) | (value & mask)
}

/// The controller at `base` after one register access; accesses to other
/// addresses leave it as it is.
pub open spec fn pio_apply(s: PioState, base: u32, op: RegOp) -> PioState {
    match op {
        RegOp::Write { addr, value } => {
            if addr == base + PIO_PER {
                PioState { psr: set_bits(s.psr, value), ..s }
            } else if addr == base + PIO_PDR {
                PioState { psr: clear_bits(s.psr, value), ..s }
            } else if addr == base + PIO_OER {
                PioState { osr: set_bits(s.osr, value), ..s }
            } else if addr == base + PIO_ODR {
                PioState { osr: clear_bits(s.osr, value), ..s }
            } else if addr == base + PIO_PUER {
                PioState { pull_up: set_bits(s.pull_up, value), ..s }
            } else if addr == base + PIO_PUDR {
                PioState { pull_up: clear_bits(s.pull_up, value), ..s }
            } else if addr == base + PIO_PPDER {
                PioState { pull_down: set_bits(s.pull_down, value), ..s }
            } else if addr == base + PIO_PPDDR {
                PioState { pull_down: clear_bits(s.pull_down, value), ..s }
            } else if addr == base + PIO_MDER {
                PioState { mdsr: set_bits(s.mdsr, value), ..s }
            } else if addr == base + PIO_MDDR {
                PioState { mdsr: clear_bits(s.mdsr, value), ..s }
            } else if addr == base + PIO_SODR {
                PioState { odsr: set_bits(s.odsr, value), ..s }
            } else if addr == base + PIO_CODR {
                PioState { odsr: clear_bits(s.odsr, value), ..s }
            } else if addr == base + PIO_ABCDSR0 {
                PioState { abcdsr0: value, ..s }
            } else if addr == base + PIO_ABCDSR1 {
                PioState { abcdsr1: value, ..s }
            } else {
                s
            }
        },
        RegOp::Modify { addr, mask, value } => {
            if addr == base + PIO_ABCDSR0 {
                PioState { abcdsr0: masked(s.abcdsr0, mask, value), ..s }
            } else if addr == base + PIO_ABCDSR1 {
                PioState { abcdsr1: masked(s.abcdsr1, mask, value), ..s }
            } else {
                s
            }
        },
        _ => s,
    }
}

/// The controller at `base` after a sequence of register accesses.
pub open spec fn pio_apply_all(s: PioState, base: u32, ops: Seq<RegOp>) -> PioState
    decreases ops.len(),
{
    if ops.len() == 0 {
        s
    } else {
        pio_apply(pio_apply_all(s, base, ops.drop_last()), base, ops.last())
    }
}

/// The mode that the controller puts pin `i` in.
pub open spec fn pin_mode(s: PioState, i: u32) -> PinMode {
    if !bit_set(s.psr, i) {
        PinMode::Peripheral(
            match (bit_set(s.abcdsr0, i), bit_set(s.abcdsr1, i)) {
                (false, false) => Periph::A,
                (true, false) => Periph::B,
                (false, true) => Periph::C,
                (true, true) => Periph::D,
            },
        )
    } else if bit_set(s.osr, i) {
        PinMode::OpenDrain
    } else if bit_set(s.pull_up, i) {
        PinMode::PullUp
    } else if bit_set(s.pull_down, i) {
        PinMode::PullDown
    } else {
        PinMode::Floating
    }
}

/// The controller after pin `i` is put in `mode`: exactly the bits of pin
/// `i` that the mode prescribes change, and nothing else.
///
/// A peripheral mode writes the two selection bits and hands the pin to
/// the peripheral. Open drain output hands the pin to the PIO controller
/// and enables its driver as an open drain one. An input hands it to the
/// PIO controller, disables its driver and both resistors, then enables
/// the resistor its mode names.
pub open spec fn reshaped(s: PioState, i: u32, mode: PinMode) -> PioState {
    match mode {
        PinMode::Peripheral(p) => PioState {
            abcdsr0: with_bit(s.abcdsr0, i, p.spec_sel0()),
            abcdsr1: with_bit(s.abcdsr1, i, p.spec_sel1()),
            psr: with_bit(s.psr, i, false),
            ..s
        },
        PinMode::OpenDrain => PioState {
            psr: with_bit(s.psr, i, true),
            osr: with_bit(s.osr, i, true),
            mdsr: with_bit(s.mdsr, i, true),
            ..s
        },
        _ => PioState {
            psr: with_bit(s.psr, i, true),
            osr: with_bit(s.osr, i, false),
            pull_up: with_bit(s.pull_up, i, mode == PinMode::PullUp),
            pull_down: with_bit(s.pull_down, i, mode == PinMode::PullDown),
            ..s
        },
    }
}

impl PioState {
    /// The state after reset: every pin a floating input driven by the PIO
    /// controller, peripheral A selected, output low, push-pull.
    pub fn reset() -> (r: PioState)
        ensures
            r == (PioState {
                psr: 0xFFFF_FFFF,
                osr: 0,
                pull_up: 0,
                pull_down: 0,
                abcdsr0: 0,
                abcdsr1: 0,
                odsr: 0,
                mdsr: 0,
            }),
    {
        PioState { psr: 0xFFFF_FFFF, osr: 0, pull_up: 0, pull_down: 0, abcdsr0: 0, abcdsr1: 0, odsr: 0, mdsr: 0 }
    }

    /// Performs one register access on the controller at `base`.
    pub fn apply(&mut self, base: u32, op: RegOp)
        ensures
            *final(self) == pio_apply(*old(self), base, op),
    {
        match op {
            RegOp::Write { addr, value } => {
                if addr as u64 == base as u64 + PIO_PER as u64 {
                    self.psr = self.psr | value;
                } else if addr as u64 == base as u64 + PIO_PDR as u64 {
                    self.psr = self.psr & !value;
                } else if addr as u64 == base as u64 + PIO_OER as u64 {
                    self.osr = self.osr | value;
                } else if addr as u64 == base as u64 + PIO_ODR as u64 {
                    self.osr = self.osr & !value;
                } else if addr as u64 == base as u64 + PIO_PUER as u64 {
                    self.pull_up = self.pull_up | value;
                } else if addr as u64 == base as u64 + PIO_PUDR as u64 {
                    self.pull_up = self.pull_up & !value;
                } else if addr as u64 == base as u64 + PIO_PPDER as u64 {
                    self.pull_down = self.pull_down | value;
                } else if addr as u64 == base as u64 + PIO_PPDDR as u64 {
                    self.pull_down = self.pull_down & !value;
                } else if addr as u64 == base as u64 + PIO_MDER as u64 {
                    self.mdsr = self.mdsr | value;
                } else if addr as u64 == base as u64 + PIO_MDDR as u64 {
                    self.mdsr = self.mdsr & !value;
                } else if addr as u64 == base as u64 + PIO_SODR as u64 {
                    self.odsr = self.odsr | value;
                } else if addr as u64 == base as u64 + PIO_CODR as u64 {
                    self.odsr = self.odsr & !value;
                } else if addr as u64 == base as u64 + PIO_ABCDSR0 as u64 {
                    self.abcdsr0 = value;
                } else if addr as u64 == base as u64 + PIO_ABCDSR1 as u64 {
                    self.abcdsr1 = value;
                }
            },
            RegOp::Modify { addr, mask, value } => {
                if addr as u64 == base as u64 + PIO_ABCDSR0 as u64 {
                    self.abcdsr0 = (self.abcdsr0 & !mask) | (value & mask);
                } else if addr as u64 == base as u64 + PIO_ABCDSR1 as u64 {
                    self.abcdsr1 = (self.abcdsr1 & !mask) | (value & mask);
                }
            },
            _ => {},
        }
    }

    /// The mode the controller puts pin `i` in.
    pub fn mode_of(&self, i: u32) -> (r: PinMode)
        requires
            i < 32,
        ensures
            r == pin_mode(*self, i),
    {
        let b = 1u32 << i;
        if self.psr & b == 0 {
            let sel0 = self.abcdsr0 & b != 0;
            let sel1 = self.abcdsr1 & b != 0;
            PinMode::Peripheral(
                if !sel0 && !sel1 {
                    Periph::A
                } else if sel0 && !sel1 {
                    Periph::B
                } else if !sel0 && sel1 {
                    Periph::C
                } else {
                    Periph::D
                },
            )
        } else if self.osr & b != 0 {
            PinMode::OpenDrain
        } else if self.pull_up & b != 0 {
            PinMode::PullUp
        } else if self.pull_down & b != 0 {
            PinMode::PullDown
        } else {
            PinMode::Floating
        }
    }
}

/// Setting or clearing bit `i` gives that bit the new value and keeps
/// every other bit.
pub proof fn lemma_with_bit(x: u32, i: u32, v: bool, j: u32)
    requires
        i < 32,
        j < 32,
    ensures
        bit_set(with_bit(x, i, v), i) == v,
        j != i ==> bit_set(with_bit(x, i, v), j) == bit_set(x, j),
{
    if v {
        assert((x | (1u32 << i)) & (1u32 << i) != 0) by (bit_vector)
            requires
                i < 32,
        ;
        assert(j != i ==> (((x | (1u32 << i)) & (1u32 << j) != 0) == (x & (1u32 << j) != 0)))
            by (bit_vector)
            requires
                i < 32,
                j < 32,
        ;
    } else {
        assert((x & !(1u32 << i)) & (1u32 << i) == 0) by (bit_vector)
            requires
                i < 32,
        ;
        assert(j != i ==> (((x & !(1u32 << i)) & (1u32 << j) != 0) == (x & (1u32 << j) != 0)))
            by (bit_vector)
            requires
                i < 32,
                j < 32,
        ;
    }
}

/// A masked write under the bit of pin `i` sets or clears that bit.
pub proof fn lemma_masked_bit(x: u32, i: u32, v: bool)
    requires
        i < 32,
    ensures
        masked(x, 1u32 << i, if v { 1u32 << i } else { 0 }) == with_bit(x, i, v),
{
    if v {
        assert((x & !(1u32 << i)) | ((1u32 << i) & (1u32 << i)) == x | (1u32 << i)) by (bit_vector);
    } else {
        assert((x & !(1u32 << i)) | (0u32 & (1u32 << i)) == x & !(1u32 << i)) by (bit_vector);
    }
}

/// Every word of the two controller states agrees on the bit of pin `j`.
pub open spec fn same_pin(s1: PioState, s2: PioState, j: u32) -> bool {
    &&& bit_set(s1.psr, j) == bit_set(s2.psr, j)
    &&& bit_set(s1.osr, j) == bit_set(s2.osr, j)
    &&& bit_set(s1.pull_up, j) == bit_set(s2.pull_up, j)
    &&& bit_set(s1.pull_down, j) == bit_set(s2.pull_down, j)
    &&& bit_set(s1.abcdsr0, j) == bit_set(s2.abcdsr0, j)
    &&& bit_set(s1.abcdsr1, j) == bit_set(s2.abcdsr1, j)
    &&& bit_set(s1.odsr, j) == bit_set(s2.odsr, j)
    &&& bit_set(s1.mdsr, j) == bit_set(s2.mdsr, j)
}

/// Putting pin `i` in a mode puts it in that mode, and changes no bit of
/// any other pin of the controller.
pub proof fn lemma_reshape_exact(s: PioState, i: u32, mode: PinMode, j: u32)
    requires
        i < 32,
        j < 32,
    ensures
        pin_mode(reshaped(s, i, mode), i) == mode,
        j != i ==> same_pin(reshaped(s, i, mode), s, j),
        j != i ==> pin_mode(reshaped(s, i, mode), j) == pin_mode(s, j),
{
    match mode {
        PinMode::Peripheral(p) => {
            lemma_with_bit(s.psr, i, false, j);
            lemma_with_bit(s.abcdsr0, i, p.spec_sel0(), j);
            lemma_with_bit(s.abcdsr1, i, p.spec_sel1(), j);
        },
        PinMode::OpenDrain => {
            lemma_with_bit(s.psr, i, true, j);
            lemma_with_bit(s.osr, i, true, j);
            lemma_with_bit(s.mdsr, i, true, j);
        },
        _ => {
            lemma_with_bit(s.psr, i, true, j);
            lemma_with_bit(s.osr, i, false, j);
            lemma_with_bit(s.pull_up, i, mode == PinMode::PullUp, j);
            lemma_with_bit(s.pull_down, i, mode == PinMode::PullDown, j);
        },
    }
}

/// Reshaping a pin from mode `a` to `b` and back to `a` leaves it in the
/// mode that reshaping it to `a` once gave, with every other pin as it was.
pub proof fn lemma_reshape_round_trip(s: PioState, i: u32, a: PinMode, b: PinMode, j: u32)
    requires
        i < 32,
        j < 32,
    ensures
        pin_mode(reshaped(reshaped(reshaped(s, i, a), i, b), i, a), i) == pin_mode(
            reshaped(s, i, a),
            i,
        ),
        j != i ==> same_pin(reshaped(reshaped(reshaped(s, i, a), i, b), i, a), reshaped(s, i, a), j),
{
    let s1 = reshaped(s, i, a);
    let s2 = reshaped(s1, i, b);
    let s3 = reshaped(s2, i, a);
    lemma_reshape_exact(s, i, a, j);
    lemma_reshape_exact(s1, i, b, j);
    lemma_reshape_exact(s2, i, a, j);
}

/// A write of the bit of pin `i` to the register at `offset` of `base`.
pub open spec fn pin_write(base: u32, offset: u32, i: u32) -> RegOp {
    RegOp::Write { addr: (base + offset) as u32, value: 1u32 << i }
}

/// A masked write of the bit of pin `i` of a selection register.
pub open spec fn pin_select(base: u32, offset: u32, i: u32, v: bool) -> RegOp {
    RegOp::Modify {
        addr: (base + offset) as u32,
        mask: 1u32 << i,
        value: if v {
            1u32 << i
        } else {
            0
        },
    }
}

/// The register accesses that put pin `i` of the controller at `base` in
/// `mode`, in order.
pub open spec fn spec_reshape_ops(base: u32, i: u32, mode: PinMode) -> Seq<RegOp> {
    let input = seq![
        pin_write(base, PIO_PER, i),
        pin_write(base, PIO_ODR, i),
        pin_write(base, PIO_PPDDR, i),
        pin_write(base, PIO_PUDR, i),
    ];
    match mode {
        PinMode::Peripheral(p) => seq![
            pin_select(base, PIO_ABCDSR0, i, p.spec_sel0()),
            pin_select(base, PIO_ABCDSR1, i, p.spec_sel1()),
            pin_write(base, PIO_PDR, i),
        ],
        PinMode::OpenDrain => seq![
            pin_write(base, PIO_PER, i),
            pin_write(base, PIO_OER, i),
            pin_write(base, PIO_MDER, i),
        ],
        PinMode::Floating => input,
        PinMode::PullUp => input.push(pin_write(base, PIO_PUER, i)),
        PinMode::PullDown => input.push(pin_write(base, PIO_PPDER, i)),
    }
}

/// A controller base address.
pub open spec fn is_pio_base(base: u32) -> bool {
    0x400E_0E00 <= base <= 0x400E_1600
}

/// Applying one more access applies it to the state the others left.
pub proof fn lemma_apply_push(s: PioState, base: u32, ops: Seq<RegOp>, op: RegOp)
    ensures
        pio_apply_all(s, base, ops.push(op)) == pio_apply(pio_apply_all(s, base, ops), base, op),
{
    assert(ops.push(op).drop_last() =~= ops);
}

/// The accesses that reshape a pin have on the controller exactly the
/// effect `reshaped` describes.
pub proof fn lemma_reshape_ops(s: PioState, base: u32, i: u32, mode: PinMode)
    requires
        is_pio_base(base),
        i < 32,
    ensures
        pio_apply_all(s, base, spec_reshape_ops(base, i, mode)) == reshaped(s, i, mode),
{
    let ops = spec_reshape_ops(base, i, mode);
    // apply the two to five accesses one at a time
    let e = Seq::<RegOp>::empty();
    assert(pio_apply_all(s, base, e) == s);
    lemma_apply_push(s, base, e, ops[0]);
    assert(ops.len() >= 2);
    assert(e.push(ops[0]) =~= ops.subrange(0, 1));
    lemma_apply_push(s, base, ops.subrange(0, 1), ops[1]);
    assert(ops.subrange(0, 1).push(ops[1]) =~= ops.subrange(0, 2));
    if ops.len() >= 3 {
        lemma_apply_push(s, base, ops.subrange(0, 2), ops[2]);
        assert(ops.subrange(0, 2).push(ops[2]) =~= ops.subrange(0, 3));
    }
    if ops.len() >= 4 {
        lemma_apply_push(s, base, ops.subrange(0, 3), ops[3]);
        assert(ops.subrange(0, 3).push(ops[3]) =~= ops.subrange(0, 4));
    }
    if ops.len() >= 5 {
        lemma_apply_push(s, base, ops.subrange(0, 4), ops[4]);
        assert(ops.subrange(0, 4).push(ops[4]) =~= ops.subrange(0, 5));
    }
    assert(ops.subrange(0, ops.len() as int) =~= ops);
    let t1 = pio_apply(s, base, ops[0]);
    let t2 = pio_apply(t1, base, ops[1]);
    assert(pio_apply_all(s, base, ops.subrange(0, 2)) == t2);
    match mode {
        PinMode::Peripheral(p) => {
            lemma_masked_bit(s.abcdsr0, i, p.spec_sel0());
            lemma_masked_bit(s.abcdsr1, i, p.spec_sel1());
            let t3 = pio_apply(t2, base, ops[2]);
            assert(pio_apply_all(s, base, ops.subrange(0, 3)) == t3);
            assert(t3 == reshaped(s, i, mode));
        },
        PinMode::OpenDrain => {
            let t3 = pio_apply(t2, base, ops[2]);
            assert(pio_apply_all(s, base, ops.subrange(0, 3)) == t3);
            assert(t3 == reshaped(s, i, mode));
        },
        _ => {
            let t3 = pio_apply(t2, base, ops[2]);
            let t4 = pio_apply(t3, base, ops[3]);
            assert(pio_apply_all(s, base, ops.subrange(0, 4)) == t4);
            if mode == PinMode::Floating {
                assert(t4 == reshaped(s, i, mode));
            } else {
                let b = 1u32 << i;
                let (u, d) = (s.pull_up, s.pull_down);
                assert((u & !b) | b == u | b && (d & !b) | b == d | b) by (bit_vector);
                let t5 = pio_apply(t4, base, ops[4]);
                assert(pio_apply_all(s, base, ops.subrange(0, 5)) == t5);
                assert(t5 == reshaped(s, i, mode));
            }
        },
    }
}

/// After the accesses that put pin `i` in `mode`, the controller reads
/// back `mode` for pin `i`, the bits that the mode prescribes for pin `i`,
/// and for every other pin `j` the bits it read back before.
pub proof fn lemma_reshape_touches_one_pin(s: PioState, base: u32, i: u32, mode: PinMode, j: u32)
    requires
        is_pio_base(base),
        i < 32,
        j < 32,
    ensures
        pio_apply_all(s, base, spec_reshape_ops(base, i, mode)) == reshaped(s, i, mode),
        pin_mode(pio_apply_all(s, base, spec_reshape_ops(base, i, mode)), i) == mode,
        j != i ==> same_pin(pio_apply_all(s, base, spec_reshape_ops(base, i, mode)), s, j),
{
    lemma_reshape_ops(s, base, i, mode);
    lemma_reshape_exact(s, i, mode, j);
}

/// Applying two sequences of accesses is applying the first, then the second.
pub proof fn lemma_apply_concat(s: PioState, base: u32, a: Seq<RegOp>, b: Seq<RegOp>)
    ensures
        pio_apply_all(s, base, a + b) == pio_apply_all(pio_apply_all(s, base, a), base, b),
    decreases b.len(),
{
    if b.len() == 0 {
        assert(a + b =~= a);
    } else {
        lemma_apply_concat(s, base, a, b.drop_last());
        assert((a + b).drop_last() =~= a + b.drop_last());
        assert((a + b).last() == b.last());
    }
}

proof fn lemma_apply_none(s: PioState, base: u32, ops: Seq<RegOp>)
    requires
        forall|k: int, t: PioState| 0 <= k < ops.len() ==> #[trigger] pio_apply(t, base, ops[k]) == t,
    ensures
        pio_apply_all(s, base, ops) == s,
    decreases ops.len(),
{
    if ops.len() > 0 {
        let rest = ops.drop_last();
        assert forall|k: int, t: PioState| 0 <= k < rest.len() implies #[trigger] pio_apply(
            t,
            base,
            rest[k],
        ) == t by {
            assert(rest[k] == ops[k]);
        }
        lemma_apply_none(s, base, rest);
        assert(pio_apply(s, base, ops[ops.len() - 1]) == s);
    }
}

/// The accesses that reshape a pin of one controller leave every other
/// controller as it is.
pub proof fn lemma_reshape_other_controller(s: PioState, port: Port, other: Port, i: u32, mode: PinMode)
    requires
        port != other,
        i < 32,
    ensures
        pio_apply_all(s, port.spec_base(), spec_reshape_ops(other.spec_base(), i, mode)) == s,
{
    let ops = spec_reshape_ops(other.spec_base(), i, mode);
    assert forall|k: int, t: PioState| 0 <= k < ops.len() implies #[trigger] pio_apply(
        t,
        port.spec_base(),
        ops[k],
    ) == t by {}
    lemma_apply_none(s, port.spec_base(), ops);
}

/// A pin and the peripheral it is handed to.
pub type PinAssignment = (Port, u32, Periph);

/// The accesses that hand each pin of `l` to its peripheral, in order.
pub open spec fn assignment_ops(l: Seq<PinAssignment>) -> Seq<RegOp>
    decreases l.len(),
{
    if l.len() == 0 {
        seq![]
    } else {
        assignment_ops(l.drop_last()) + spec_reshape_ops(
            l.last().0.spec_base(),
            l.last().1,
            PinMode::Peripheral(l.last().2),
        )
    }
}

/// One more assignment appends the accesses that perform it.
pub proof fn lemma_assignment_push(l: Seq<PinAssignment>, e: PinAssignment)
    ensures
        assignment_ops(l.push(e)) == assignment_ops(l) + spec_reshape_ops(
            e.0.spec_base(),
            e.1,
            PinMode::Peripheral(e.2),
        ),
{
    assert(l.push(e).drop_last() =~= l);
}

/// Controller `port` after the pins of `l` on it are handed, in order, to
/// their peripherals.
pub open spec fn assigned(s: PioState, port: Port, l: Seq<PinAssignment>) -> PioState
    decreases l.len(),
{
    if l.len() == 0 {
        s
    } else {
        let t = assigned(s, port, l.drop_last());
        if l.last().0 == port {
            reshaped(t, l.last().1, PinMode::Peripheral(l.last().2))
        } else {
            t
        }
    }
}

/// Every pin of `l` is a pin of its controller, and none comes twice.
pub open spec fn assignments_ok(l: Seq<PinAssignment>) -> bool {
    &&& forall|k: int| 0 <= k < l.len() ==> #[trigger] l[k].1 < 32
    &&& forall|a: int, b: int|
        0 <= a < b < l.len() && #[trigger] l[a].0 == #[trigger] l[b].0 ==> l[a].1 != l[b].1
}

/// The accesses that hand the pins of `l` to their peripherals have on
/// controller `port` the effect of `assigned`.
pub proof fn lemma_assignment_ops(s: PioState, port: Port, l: Seq<PinAssignment>)
    requires
        forall|k: int| 0 <= k < l.len() ==> #[trigger] l[k].1 < 32,
    ensures
        pio_apply_all(s, port.spec_base(), assignment_ops(l)) == assigned(s, port, l),
    decreases l.len(),
{
    if l.len() > 0 {
        let rest = l.drop_last();
        assert forall|k: int| 0 <= k < rest.len() implies #[trigger] rest[k].1 < 32 by {
            assert(rest[k] == l[k]);
        }
        lemma_assignment_ops(s, port, rest);
        let e = l.last();
        assert(e == l[l.len() - 1]);
        let ops = spec_reshape_ops(e.0.spec_base(), e.1, PinMode::Peripheral(e.2));
        lemma_apply_concat(s, port.spec_base(), assignment_ops(rest), ops);
        let t = assigned(s, port, rest);
        if e.0 == port {
            lemma_reshape_ops(t, port.spec_base(), e.1, PinMode::Peripheral(e.2));
        } else {
            lemma_reshape_other_controller(t, port, e.0, e.1, PinMode::Peripheral(e.2));
        }
    }
}

/// After the pins of `l` are handed to their peripherals, each pin of `l`
/// on controller `port` is in its peripheral mode, and every pin of the
/// controller that `l` does not name reads back as it did before.
pub proof fn lemma_assigned_modes(s: PioState, port: Port, l: Seq<PinAssignment>, j: u32)
    requires
        assignments_ok(l),
        j < 32,
    ensures
        forall|k: int|
            0 <= k < l.len() && l[k].0 == port ==> pin_mode(assigned(s, port, l), #[trigger] l[k].1)
                == PinMode::Peripheral(l[k].2),
        (forall|k: int| 0 <= k < l.len() ==> !(#[trigger] l[k].0 == port && l[k].1 == j)) ==> same_pin(
            assigned(s, port, l),
            s,
            j,
        ),
    decreases l.len(),
{
    if l.len() > 0 {
        let rest = l.drop_last();
        let e = l.last();
        assert(e == l[l.len() - 1]);
        assert forall|k: int| 0 <= k < rest.len() implies #[trigger] rest[k] == l[k] by {}
        assert(assignments_ok(rest)) by {
            assert forall|k: int| 0 <= k < rest.len() implies #[trigger] rest[k].1 < 32 by {
                assert(rest[k] == l[k]);
            }
            assert forall|a: int, b: int|
                0 <= a < b < rest.len() && #[trigger] rest[a].0 == #[trigger] rest[b].0 implies rest[a].1
                != rest[b].1 by {
                assert(rest[a] == l[a] && rest[b] == l[b]);
            }
        }
        lemma_assigned_modes(s, port, rest, j);
        let t = assigned(s, port, rest);
        assert(e.1 < 32);
        if e.0 == port {
            lemma_reshape_exact(t, e.1, PinMode::Peripheral(e.2), j);
            assert forall|k: int| 0 <= k < l.len() && l[k].0 == port implies pin_mode(
                assigned(s, port, l),
                #[trigger] l[k].1,
            ) == PinMode::Peripheral(l[k].2) by {
                if k < l.len() - 1 {
                    assert(l[k] == rest[k]);
                    assert(l[k].1 != e.1);
                    lemma_reshape_exact(t, e.1, PinMode::Peripheral(e.2), l[k].1);
                }
            }
            if forall|k: int| 0 <= k < l.len() ==> !(#[trigger] l[k].0 == port && l[k].1 == j) {
                assert(forall|k: int| 0 <= k < rest.len() ==> !(#[trigger] rest[k].0 == port && rest[k].1 == j)) by {
                    assert forall|k: int| 0 <= k < rest.len() implies !(#[trigger] rest[k].0 == port
                        && rest[k].1 == j) by {
                        assert(rest[k] == l[k]);
                    }
                }
                assert(!(l[l.len() - 1].0 == port && l[l.len() - 1].1 == j));
            }
        } else {
            assert forall|k: int| 0 <= k < l.len() && l[k].0 == port implies pin_mode(
                assigned(s, port, l),
                #[trigger] l[k].1,
            ) == PinMode::Peripheral(l[k].2) by {
                assert(l[k] == rest[k]);
            }
            if forall|k: int| 0 <= k < l.len() ==> !(#[trigger] l[k].0 == port && l[k].1 == j) {
                assert forall|k: int| 0 <= k < rest.len() implies !(#[trigger] rest[k].0 == port
                    && rest[k].1 == j) by {
                    assert(rest[k] == l[k]);
                }
            }
        }
    }
}

fn pin_write_op(base: u32, offset: u32, i: u32) -> (r: RegOp)
    requires
        is_pio_base(base),
        offset <= PIO_PPDER,
        i < 32,
    ensures
        r == pin_write(base, offset, i),
{
    RegOp::Write { addr: base + offset, value: 1u32 << i }
}

fn pin_select_op(base: u32, offset: u32, i: u32, v: bool) -> (r: RegOp)
    requires
        is_pio_base(base),
        offset <= PIO_PPDER,
        i < 32,
    ensures
        r == pin_select(base, offset, i, v),
{
    RegOp::Modify {
        addr: base + offset,
        mask: 1u32 << i,
        value: if v {
            1u32 << i
        } else {
            0
        },
    }
}

/// The register accesses that put pin `i` of `port` in `mode`.
pub fn reshape_ops(port: Port, i: u32, mode: PinMode) -> (r: Vec<RegOp>)
    requires
        i < 32,
    ensures
        r@ == spec_reshape_ops(port.spec_base(), i, mode),
{
    let base = port.base();
    let mut ops: Vec<RegOp> = Vec::new();
    match mode {
        PinMode::Peripheral(p) => {
            let sel0 = p == Periph::B || p == Periph::D;
            let sel1 = p == Periph::C || p == Periph::D;
            ops.push(pin_select_op(base, PIO_ABCDSR0, i, sel0));
            ops.push(pin_select_op(base, PIO_ABCDSR1, i, sel1));
            ops.push(pin_write_op(base, PIO_PDR, i));
        },
        PinMode::OpenDrain => {
            ops.push(pin_write_op(base, PIO_PER, i));
            ops.push(pin_write_op(base, PIO_OER, i));
            ops.push(pin_write_op(base, PIO_MDER, i));
        },
        _ => {
            ops.push(pin_write_op(base, PIO_PER, i));
            ops.push(pin_write_op(base, PIO_ODR, i));
            ops.push(pin_write_op(base, PIO_PPDDR, i));
            ops.push(pin_write_op(base, PIO_PUDR, i));
            if mode == PinMode::PullUp {
                ops.push(pin_write_op(base, PIO_PUER, i));
            } else if mode == PinMode::PullDown {
                ops.push(pin_write_op(base, PIO_PPDER, i));
            }
        },
    }
    assert(ops@ =~= spec_reshape_ops(base, i, mode));
    ops
}

/// One physical pin, in the mode its type names.
pub struct Pin<MODE> {
    port: Port,
    index: u32,
    _mode: PhantomData<MODE>,
}

impl<MODE> Pin<MODE> {
    #[verifier::type_invariant]
    spec fn on_controller(self) -> bool {
        self.index < 32
    }

    /// The controller the pin belongs to.
    pub closed spec fn spec_port(self) -> Port {
        self.port
    }

    /// The pin's number on its controller.
    pub closed spec fn spec_index(self) -> u32 {
        self.index
    }

    fn fresh(port: Port, index: u32) -> (r: Pin<MODE>)
        requires
            index < 32,
        ensures
            r.spec_port() == port,
            r.spec_index() == index,
    {
        Pin { port, index, _mode: PhantomData }
    }

    /// The controller the pin belongs to.
    pub fn port(&self) -> (r: Port)
        ensures
            r == self.spec_port(),
    {
        self.port
    }

    /// The pin's number on its controller.
    pub fn index(&self) -> (r: u32)
        ensures
            r == self.spec_index(),
            r < 32,
    {
        proof {
            use_type_invariant(self);
        }
        self.index
    }

    fn reshape<NEW>(self, mode: PinMode) -> (r: (Pin<NEW>, Vec<RegOp>))
        ensures
            r.0.spec_port() == self.spec_port(),
            r.0.spec_index() == self.spec_index(),
            r.1@ == spec_reshape_ops(self.spec_port().spec_base(), self.spec_index(), mode),
            forall|s: PioState|
                pio_apply_all(s, self.spec_port().spec_base(), #[trigger] r.1@) == reshaped(
                    s,
                    self.spec_index(),
                    mode,
                ),
    {
        proof {
            use_type_invariant(&self);
        }
        let ops = reshape_ops(self.port, self.index, mode);
        assert forall|s: PioState|
            pio_apply_all(s, self.port.spec_base(), #[trigger] ops@) == reshaped(s, self.index, mode) by {
            lemma_reshape_ops(s, self.port.spec_base(), self.index, mode);
        }
        (Pin { port: self.port, index: self.index, _mode: PhantomData }, ops)
    }

    /// Makes the pin peripheral A; returns the new handle and the register
    /// accesses that do it, which touch no other pin.
    pub fn into_peripheral_a(self) -> (r: (Pin<PeripheralCntr<PeriphA>>, Vec<RegOp>))
        ensures
            r.0.spec_port() == self.spec_port(),
            r.0.spec_index() == self.spec_index(),
            r.1@ == spec_reshape_ops(self.spec_port().spec_base(), self.spec_index(), PinMode::Peripheral(Periph::A)),
            forall|s: PioState|
                pio_apply_all(s, self.spec_port().spec_base(), #[trigger] r.1@) == reshaped(
                    s,
                    self.spec_index(),
                    PinMode::Peripheral(Periph::A),
                ),
    {
        self.reshape(PinMode::Peripheral(Periph::A))
    }

    /// Makes the pin peripheral B; returns the new handle and the register
    /// accesses that do it, which touch no other pin.
    pub fn into_peripheral_b(self) -> (r: (Pin<PeripheralCntr<PeriphB>>, Vec<RegOp>))
        ensures
            r.0.spec_port() == self.spec_port(),
            r.0.spec_index() == self.spec_index(),
            r.1@ == spec_reshape_ops(self.spec_port().spec_base(), self.spec_index(), PinMode::Peripheral(Periph::B)),
            forall|s: PioState|
                pio_apply_all(s, self.spec_port().spec_base(), #[trigger] r.1@) == reshaped(
                    s,
                    self.spec_index(),
                    PinMode::Peripheral(Periph::B),
                ),
    {
        self.reshape(PinMode::Peripheral(Periph::B))
    }

    /// Makes the pin peripheral C; returns the new handle and the register
    /// accesses that do it, which touch no other pin.
    pub fn into_peripheral_c(self) -> (r: (Pin<PeripheralCntr<PeriphC>>, Vec<RegOp>))
        ensures
            r.0.spec_port() == self.spec_port(),
            r.0.spec_index() == self.spec_index(),
            r.1@ == spec_reshape_ops(self.spec_port().spec_base(), self.spec_index(), PinMode::Peripheral(Periph::C)),
            forall|s: PioState|
                pio_apply_all(s, self.spec_port().spec_base(), #[trigger] r.1@) == reshaped(
                    s,
                    self.spec_index(),
                    PinMode::Peripheral(Periph::C),
                ),
    {
        self.reshape(PinMode::Peripheral(Periph::C))
    }

    /// Makes the pin peripheral D; returns the new handle and the register
    /// accesses that do it, which touch no other pin.
    pub fn into_peripheral_d(self) -> (r: (Pin<PeripheralCntr<PeriphD>>, Vec<RegOp>))
        ensures
            r.0.spec_port() == self.spec_port(),
            r.0.spec_index() == self.spec_index(),
            r.1@ == spec_reshape_ops(self.spec_port().spec_base(), self.spec_index(), PinMode::Peripheral(Periph::D)),
            forall|s: PioState|
                pio_apply_all(s, self.spec_port().spec_base(), #[trigger] r.1@) == reshaped(
                    s,
                    self.spec_index(),
                    PinMode::Peripheral(Periph::D),
                ),
    {
        self.reshape(PinMode::Peripheral(Periph::D))
    }

    /// Makes the pin an open drain output; returns the new handle and the register
    /// accesses that do it, which touch no other pin.
    pub fn into_open_drain_output(self) -> (r: (Pin<Output<OpenDrain>>, Vec<RegOp>))
        ensures
            r.0.spec_port() == self.spec_port(),
            r.0.spec_index() == self.spec_index(),
            r.1@ == spec_reshape_ops(self.spec_port().spec_base(), self.spec_index(), PinMode::OpenDrain),
            forall|s: PioState|
                pio_apply_all(s, self.spec_port().spec_base(), #[trigger] r.1@) == reshaped(
                    s,
                    self.spec_index(),
                    PinMode::OpenDrain,
                ),
    {
        self.reshape(PinMode::OpenDrain)
    }

    /// Makes the pin a floating input; returns the new handle and the register
    /// accesses that do it, which touch no other pin.
    pub fn into_floating_input(self) -> (r: (Pin<Input<Floating>>, Vec<RegOp>))
        ensures
            r.0.spec_port() == self.spec_port(),
            r.0.spec_index() == self.spec_index(),
            r.1@ == spec_reshape_ops(self.spec_port().spec_base(), self.spec_index(), PinMode::Floating),
            forall|s: PioState|
                pio_apply_all(s, self.spec_port().spec_base(), #[trigger] r.1@) == reshaped(
                    s,
                    self.spec_index(),
                    PinMode::Floating,
                ),
    {
        self.reshape(PinMode::Floating)
    }

    /// Makes the pin an input with its pull-down resistor; returns the new handle and the register
    /// accesses that do it, which touch no other pin.
    pub fn into_pull_down_input(self) -> (r: (Pin<Input<PullDown>>, Vec<RegOp>))
        ensures
            r.0.spec_port() == self.spec_port(),
            r.0.spec_index() == self.spec_index(),
            r.1@ == spec_reshape_ops(self.spec_port().spec_base(), self.spec_index(), PinMode::PullDown),
            forall|s: PioState|
                pio_apply_all(s, self.spec_port().spec_base(), #[trigger] r.1@) == reshaped(
                    s,
                    self.spec_index(),
                    PinMode::PullDown,
                ),
    {
        self.reshape(PinMode::PullDown)
    }

    /// Makes the pin an input with its pull-up resistor; returns the new handle and the register
    /// accesses that do it, which touch no other pin.
    pub fn into_pull_up_input(self) -> (r: (Pin<Input<PullUp>>, Vec<RegOp>))
        ensures
            r.0.spec_port() == self.spec_port(),
            r.0.spec_index() == self.spec_index(),
            r.1@ == spec_reshape_ops(self.spec_port().spec_base(), self.spec_index(), PinMode::PullUp),
            forall|s: PioState|
                pio_apply_all(s, self.spec_port().spec_base(), #[trigger] r.1@) == reshaped(
                    s,
                    self.spec_index(),
                    PinMode::PullUp,
                ),
    {
        self.reshape(PinMode::PullUp)
    }
}

impl<MODE> Pin<Output<MODE>> {
    /// Drives the pin high: one write of its bit to the set register.
    pub fn set_high(&self) -> (r: RegOp)
        ensures
            r == pin_write(self.spec_port().spec_base(), PIO_SODR, self.spec_index()),
    {
        proof {
            use_type_invariant(self);
        }
        pin_write_op(self.port.base(), PIO_SODR, self.index)
    }

    /// Drives the pin low: one write of its bit to the clear register.
    pub fn set_low(&self) -> (r: RegOp)
        ensures
            r == pin_write(self.spec_port().spec_base(), PIO_CODR, self.spec_index()),
    {
        proof {
            use_type_invariant(self);
        }
        pin_write_op(self.port.base(), PIO_CODR, self.index)
    }

    /// Whether the pin is driven high, given the output data status register.
    pub fn is_set_high(&self, odsr: u32) -> (r: bool)
        ensures
            r == bit_set(odsr, self.spec_index()),
    {
        proof {
            use_type_invariant(self);
        }
        odsr & (1u32 << self.index) != 0
    }

    /// Whether the pin is driven low, given the output data status register.
    pub fn is_set_low(&self, odsr: u32) -> (r: bool)
        ensures
            r == !bit_set(odsr, self.spec_index()),
    {
        !self.is_set_high(odsr)
    }

    /// Drives the pin to the other level, given the output data status register.
    pub fn toggle(&self, odsr: u32) -> (r: RegOp)
        ensures
            r == pin_write(
                self.spec_port().spec_base(),
                if bit_set(odsr, self.spec_index()) {
                    PIO_CODR
                } else {
                    PIO_SODR
                },
                self.spec_index(),
            ),
    {
        if self.is_set_high(odsr) {
            self.set_low()
        } else {
            self.set_high()
        }
    }
}

impl<MODE> Pin<Input<MODE>> {
    /// Whether the pin reads high, given the pin data status register.
    pub fn is_high(&self, pdsr: u32) -> (r: bool)
        ensures
            r == bit_set(pdsr, self.spec_index()),
    {
        proof {
            use_type_invariant(self);
        }
        pdsr & (1u32 << self.index) != 0
    }

    /// Whether the pin reads low, given the pin data status register.
    pub fn is_low(&self, pdsr: u32) -> (r: bool)
        ensures
            r == !bit_set(pdsr, self.spec_index()),
    {
        !self.is_high(pdsr)
    }
}

/// The 32 pins of one controller, each a floating input.
pub struct Parts {
    pub p0: Pin<Input<Floating>>,
    pub p1: Pin<Input<Floating>>,
    pub p2: Pin<Input<Floating>>,
    pub p3: Pin<Input<Floating>>,
    pub p4: Pin<Input<Floating>>,
    pub p5: Pin<Input<Floating>>,
    pub p6: Pin<Input<Floating>>,
    pub p7: Pin<Input<Floating>>,
    pub p8: Pin<Input<Floating>>,
    pub p9: Pin<Input<Floating>>,
    pub p10: Pin<Input<Floating>>,
    pub p11: Pin<Input<Floating>>,
    pub p12: Pin<Input<Floating>>,
    pub p13: Pin<Input<Floating>>,
    pub p14: Pin<Input<Floating>>,
    pub p15: Pin<Input<Floating>>,
    pub p16: Pin<Input<Floating>>,
    pub p17: Pin<Input<Floating>>,
    pub p18: Pin<Input<Floating>>,
    pub p19: Pin<Input<Floating>>,
    pub p20: Pin<Input<Floating>>,
    pub p21: Pin<Input<Floating>>,
    pub p22: Pin<Input<Floating>>,
    pub p23: Pin<Input<Floating>>,
    pub p24: Pin<Input<Floating>>,
    pub p25: Pin<Input<Floating>>,
    pub p26: Pin<Input<Floating>>,
    pub p27: Pin<Input<Floating>>,
    pub p28: Pin<Input<Floating>>,
    pub p29: Pin<Input<Floating>>,
    pub p30: Pin<Input<Floating>>,
    pub p31: Pin<Input<Floating>>,
}

impl Parts {
    /// Pin k of the parts is pin k of `port`.
    pub open spec fn fresh(&self, port: Port) -> bool {
        &&& self.p0.spec_port() == port && self.p0.spec_index() == 0
        &&& self.p1.spec_port() == port && self.p1.spec_index() == 1
        &&& self.p2.spec_port() == port && self.p2.spec_index() == 2
        &&& self.p3.spec_port() == port && self.p3.spec_index() == 3
        &&& self.p4.spec_port() == port && self.p4.spec_index() == 4
        &&& self.p5.spec_port() == port && self.p5.spec_index() == 5
        &&& self.p6.spec_port() == port && self.p6.spec_index() == 6
        &&& self.p7.spec_port() == port && self.p7.spec_index() == 7
        &&& self.p8.spec_port() == port && self.p8.spec_index() == 8
        &&& self.p9.spec_port() == port && self.p9.spec_index() == 9
        &&& self.p10.spec_port() == port && self.p10.spec_index() == 10
        &&& self.p11.spec_port() == port && self.p11.spec_index() == 11
        &&& self.p12.spec_port() == port && self.p12.spec_index() == 12
        &&& self.p13.spec_port() == port && self.p13.spec_index() == 13
        &&& self.p14.spec_port() == port && self.p14.spec_index() == 14
        &&& self.p15.spec_port() == port && self.p15.spec_index() == 15
        &&& self.p16.spec_port() == port && self.p16.spec_index() == 16
        &&& self.p17.spec_port() == port && self.p17.spec_index() == 17
        &&& self.p18.spec_port() == port && self.p18.spec_index() == 18
        &&& self.p19.spec_port() == port && self.p19.spec_index() == 19
        &&& self.p20.spec_port() == port && self.p20.spec_index() == 20
        &&& self.p21.spec_port() == port && self.p21.spec_index() == 21
        &&& self.p22.spec_port() == port && self.p22.spec_index() == 22
        &&& self.p23.spec_port() == port && self.p23.spec_index() == 23
        &&& self.p24.spec_port() == port && self.p24.spec_index() == 24
        &&& self.p25.spec_port() == port && self.p25.spec_index() == 25
        &&& self.p26.spec_port() == port && self.p26.spec_index() == 26
        &&& self.p27.spec_port() == port && self.p27.spec_index() == 27
        &&& self.p28.spec_port() == port && self.p28.spec_index() == 28
        &&& self.p29.spec_port() == port && self.p29.spec_index() == 29
        &&& self.p30.spec_port() == port && self.p30.spec_index() == 30
        &&& self.p31.spec_port() == port && self.p31.spec_index() == 31
    }
}

/// Ownership of one PIO controller.
pub struct Pio {
    port: Port,
}

impl Pio {
    /// The handle of the controller of `port`; `Peripherals::take` hands
    /// out the only one.
    pub(crate) fn new(port: Port) -> (r: Pio)
        ensures
            r.spec_port() == port,
    {
        Pio { port }
    }
}

/// Splits a PIO controller into independent pins.
pub trait GpioExt: Sized {
    /// The controller being split.
    spec fn spec_port(&self) -> Port;

    /// Splits the controller into its 32 pins, each a floating input, and
    /// returns the write that enables the controller's clock.
    fn split(self) -> (r: (Parts, RegOp))
        ensures
            r.0.fresh(self.spec_port()),
            r.1 == spec_enable_clock_op(self.spec_port().spec_pid()),
    ;
}

impl GpioExt for Pio {
    closed spec fn spec_port(&self) -> Port {
        self.port
    }

    fn split(self) -> (r: (Parts, RegOp)) {
        let port = self.port;
        let op = enable_clock_op(port.pid());
        let parts = Parts {
            p0: Pin::fresh(port, 0),
            p1: Pin::fresh(port, 1),
            p2: Pin::fresh(port, 2),
            p3: Pin::fresh(port, 3),
            p4: Pin::fresh(port, 4),
            p5: Pin::fresh(port, 5),
            p6: Pin::fresh(port, 6),
            p7: Pin::fresh(port, 7),
            p8: Pin::fresh(port, 8),
            p9: Pin::fresh(port, 9),
            p10: Pin::fresh(port, 10),
            p11: Pin::fresh(port, 11),
            p12: Pin::fresh(port, 12),
            p13: Pin::fresh(port, 13),
            p14: Pin::fresh(port, 14),
            p15: Pin::fresh(port, 15),
            p16: Pin::fresh(port, 16),
            p17: Pin::fresh(port, 17),
            p18: Pin::fresh(port, 18),
            p19: Pin::fresh(port, 19),
            p20: Pin::fresh(port, 20),
            p21: Pin::fresh(port, 21),
            p22: Pin::fresh(port, 22),
            p23: Pin::fresh(port, 23),
            p24: Pin::fresh(port, 24),
            p25: Pin::fresh(port, 25),
            p26: Pin::fresh(port, 26),
            p27: Pin::fresh(port, 27),
            p28: Pin::fresh(port, 28),
            p29: Pin::fresh(port, 29),
            p30: Pin::fresh(port, 30),
            p31: Pin::fresh(port, 31),
        };
        (parts, op)
    }
}

} // verus!
