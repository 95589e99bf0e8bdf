//! UART driver: bring-up from the frozen clocks, and the byte-level
//! non-blocking primitives.
use vstd::prelude::*;

use crate::clock_gen::Clocks;
use crate::gpio::{ModeTag, Periph, Pin, PinMode, Port};
use crate::regs::{enable_clock_op, spec_enable_clock_op, RegOp};
use crate::time::Bps;

verus! {

/// Declares `nb::Error` so that the results of the non-blocking primitives
/// can carry it. Relies on its declaration in the `nb` crate: a public enum
/// with the two variants `Other(E)` and `WouldBlock`, and nothing else.
#[verifier::external_type_specification]
#[verifier::reject_recursive_types(E)]
pub struct ExNbError<E>(nb::Error<E>);

/// Line error reported on receive
#[derive(Clone, Copy, Debug, PartialEq, Eq, Structural)]
pub enum SerialError {
    /// Framing error
    Framing,
    /// Noise error
    Noise,
    /// RX buffer overrun
    Overrun,
    /// Parity check error
    Parity,
}

/// Interrupt event
#[derive(Clone, Copy, Debug, PartialEq, Eq, Structural)]
pub enum Event {
    /// New data has been received
    Rxne,
    /// New data can be sent
    Txe,
    /// Idle line state detected
    Idle,
}

/// Data bits per character.
#[derive(Clone, Copy, Debug, PartialEq, Eq, Structural)]
pub enum WordLength {
    DataBits5,
    DataBits6,
    DataBits7,
    DataBits8,
}

/// Parity of a character.
#[derive(Clone, Copy, Debug, PartialEq, Eq, Structural)]
pub enum Parity {
    ParityEven,
    ParityOdd,
    ParitySpace,
    ParityMark,
    ParityNone,
    /// Not available on a UART: programmed as no parity.
    ParityMultidrop,
}

impl Parity {
    /// The value of the parity field of the mode register.
    pub open spec fn spec_field(self) -> u32 {
        match self {
            Parity::ParityEven => 0,
            Parity::ParityOdd => 1,
            Parity::ParitySpace => 2,
            Parity::ParityMark => 3,
            Parity::ParityNone => 4,
            Parity::ParityMultidrop => 4,
        }
    }

    /// The value of the parity field of the mode register.
    pub fn field(self) -> (r: u32)
        ensures
            r == self.spec_field(),
    {
        match self {
            Parity::ParityEven => 0,
            Parity::ParityOdd => 1,
            Parity::ParitySpace => 2,
            Parity::ParityMark => 3,
            Parity::ParityNone => 4,
            Parity::ParityMultidrop => 4,
        }
    }
}

/// Stop bits per character.
#[derive(Clone, Copy, Debug, PartialEq, Eq, Structural)]
pub enum StopBits {
    /// 1 stop bit
    STOP1,
    /// 1.5 stop bits
    STOP1P5,
    /// 2 stop bits
    STOP2,
}

/// UART configuration.
#[derive(Clone, Copy, Debug, PartialEq, Eq, Structural)]
pub struct UartConfig {
    pub baudrate: Bps,
    pub parity: Parity,
}

impl UartConfig {
    /// Sets the baud rate.
    pub fn baudrate(self, baudrate: Bps) -> (r: Self)
        ensures
            r == (UartConfig { baudrate, ..self }),
    {
        UartConfig { baudrate, ..self }
    }

    /// No parity bit.
    pub fn parity_none(self) -> (r: Self)
        ensures
            r == (UartConfig { parity: Parity::ParityNone, ..self }),
    {
        UartConfig { parity: Parity::ParityNone, ..self }
    }

    /// Even parity.
    pub fn parity_even(self) -> (r: Self)
        ensures
            r == (UartConfig { parity: Parity::ParityEven, ..self }),
    {
        UartConfig { parity: Parity::ParityEven, ..self }
    }

    /// Odd parity.
    pub fn parity_odd(self) -> (r: Self)
        ensures
            r == (UartConfig { parity: Parity::ParityOdd, ..self }),
    {
        UartConfig { parity: Parity::ParityOdd, ..self }
    }

    /// Parity bit always zero.
    pub fn parity_space(self) -> (r: Self)
        ensures
            r == (UartConfig { parity: Parity::ParitySpace, ..self }),
    {
        UartConfig { parity: Parity::ParitySpace, ..self }
    }

    /// Parity bit always one.
    pub fn parity_mark(self) -> (r: Self)
        ensures
            r == (UartConfig { parity: Parity::ParityMark, ..self }),
    {
        UartConfig { parity: Parity::ParityMark, ..self }
    }
}

impl Default for UartConfig {
    fn default() -> (r: UartConfig)
        ensures
            r == (UartConfig { baudrate: Bps(19_200), parity: Parity::ParityNone }),
    {
        UartConfig { baudrate: Bps(19_200), parity: Parity::ParityNone }
    }
}

/// The UART cannot be brought up with the pins or the configuration given.
#[derive(Clone, Copy, Debug, PartialEq, Eq, Structural)]
pub struct InvalidConfig;

/// Control register.
pub const UART_CR: u32 = 0x00;
/// Mode register.
pub const UART_MR: u32 = 0x04;
/// Status register.
pub const UART_SR: u32 = 0x14;
/// Receive holding register.
pub const UART_RHR: u32 = 0x18;
/// Transmit holding register.
pub const UART_THR: u32 = 0x1C;
/// Baud rate generator register.
pub const UART_BRGR: u32 = 0x20;

/// Control: reset the receiver.
pub const CR_RSTRX: u32 = 1 << 2;
/// Control: reset the transmitter.
pub const CR_RSTTX: u32 = 1 << 3;
/// Control: enable the receiver.
pub const CR_RXEN: u32 = 1 << 4;
/// Control: disable the receiver.
pub const CR_RXDIS: u32 = 1 << 5;
/// Control: enable the transmitter.
pub const CR_TXEN: u32 = 1 << 6;
/// Control: disable the transmitter.
pub const CR_TXDIS: u32 = 1 << 7;
/// Control: reset the status bits.
pub const CR_RSTSTA: u32 = 1 << 8;

/// Status: a byte has been received.
pub const SR_RXRDY: u32 = 1 << 0;
/// Status: the transmit holding register is free.
pub const SR_TXRDY: u32 = 1 << 1;
/// Status: overrun error.
pub const SR_OVRE: u32 = 1 << 5;
/// Status: framing error.
pub const SR_FRAME: u32 = 1 << 6;
/// Status: parity error.
pub const SR_PARE: u32 = 1 << 7;
/// Status: nothing is left to send.
pub const SR_TXEMPTY: u32 = 1 << 9;

/// Largest baud rate divisor the generator holds.
pub const CD_MAX: u32 = 0xFFFF;

/// One of the five UARTs.
#[derive(Clone, Copy, Debug, PartialEq, Eq, Structural)]
pub enum UartId {
    Uart0,
    Uart1,
    Uart2,
    Uart3,
    Uart4,
}

impl UartId {
    /// Base address of the UART's registers.
    pub open spec fn spec_base(self) -> u32 {
        match self {
            UartId::Uart0 => 0x400E_0800,
            UartId::Uart1 => 0x400E_0A00,
            UartId::Uart2 => 0x400E_1A00,
            UartId::Uart3 => 0x400E_1C00,
            UartId::Uart4 => 0x400E_1E00,
        }
    }

    /// Base address of the UART's registers.
    pub fn base(self) -> (r: u32)
        ensures
            r == self.spec_base(),
    {
        match self {
            UartId::Uart0 => 0x400E_0800,
            UartId::Uart1 => 0x400E_0A00,
            UartId::Uart2 => 0x400E_1A00,
            UartId::Uart3 => 0x400E_1C00,
            UartId::Uart4 => 0x400E_1E00,
        }
    }

    /// Peripheral id of the UART in the power management controller.
    pub open spec fn spec_pid(self) -> u32 {
        match self {
            UartId::Uart0 => 7,
            UartId::Uart1 => 8,
            UartId::Uart2 => 44,
            UartId::Uart3 => 45,
            UartId::Uart4 => 46,
        }
    }

    /// Peripheral id of the UART in the power management controller.
    pub fn pid(self) -> (r: u32)
        ensures
            r == self.spec_pid(),
    {
        match self {
            UartId::Uart0 => 7,
            UartId::Uart1 => 8,
            UartId::Uart2 => 44,
            UartId::Uart3 => 45,
            UartId::Uart4 => 46,
        }
    }

    /// The address of the UART register at `offset`.
    pub open spec fn spec_reg(self, offset: u32) -> u32 {
        (self.spec_base() + offset) as u32
    }

    /// The address of the UART register at `offset`.
    pub fn reg(self, offset: u32) -> (r: u32)
        requires
            offset <= UART_BRGR,
        ensures
            r == self.spec_reg(offset),
    {
        self.base() + offset
    }
}

/// Pin `index` of `port` in `mode` may carry the transmit line of `id`.
pub open spec fn spec_tx_pin_ok(id: UartId, port: Port, index: u32, mode: PinMode) -> bool {
    match id {
        UartId::Uart0 => port == Port::A && index == 10 && mode == PinMode::Peripheral(Periph::A),
        UartId::Uart1 => (port == Port::A && (index == 4 || index == 6) && mode == PinMode::Peripheral(
            Periph::C,
        )) || (port == Port::D && index == 26 && mode == PinMode::Peripheral(Periph::D)),
        UartId::Uart2 => port == Port::D && index == 26 && mode == PinMode::Peripheral(Periph::C),
        UartId::Uart3 => port == Port::D && ((index == 30 && mode == PinMode::Peripheral(Periph::A))
            || (index == 31 && mode == PinMode::Peripheral(Periph::B))),
        UartId::Uart4 => port == Port::D && (index == 3 || index == 19) && mode == PinMode::Peripheral(
            Periph::C,
        ),
    }
}

/// Pin `index` of `port` in `mode` may carry the receive line of `id`.
pub open spec fn spec_rx_pin_ok(id: UartId, port: Port, index: u32, mode: PinMode) -> bool {
    match id {
        UartId::Uart0 => port == Port::A && index == 9 && mode == PinMode::Peripheral(Periph::A),
        UartId::Uart1 => port == Port::A && index == 5 && mode == PinMode::Peripheral(Periph::C),
        UartId::Uart2 => port == Port::D && index == 25 && mode == PinMode::Peripheral(Periph::C),
        UartId::Uart3 => port == Port::D && index == 28 && mode == PinMode::Peripheral(Periph::A),
        UartId::Uart4 => port == Port::D && index == 18 && mode == PinMode::Peripheral(Periph::C),
    }
}

/// Whether pin `index` of `port` in `mode` may carry the transmit line of `id`.
pub fn tx_pin_ok(id: UartId, port: Port, index: u32, mode: PinMode) -> (r: bool)
    ensures
        r == spec_tx_pin_ok(id, port, index, mode),
{
    let pa = PinMode::Peripheral(Periph::A);
    let pb = PinMode::Peripheral(Periph::B);
    let pc = PinMode::Peripheral(Periph::C);
    let pd = PinMode::Peripheral(Periph::D);
    match id {
        UartId::Uart0 => port == Port::A && index == 10 && mode == pa,
        UartId::Uart1 => (port == Port::A && (index == 4 || index == 6) && mode == pc) || (port
            == Port::D && index == 26 && mode == pd),
        UartId::Uart2 => port == Port::D && index == 26 && mode == pc,
        UartId::Uart3 => port == Port::D && ((index == 30 && mode == pa) || (index == 31 && mode
            == pb)),
        UartId::Uart4 => port == Port::D && (index == 3 || index == 19) && mode == pc,
    }
}

/// Whether pin `index` of `port` in `mode` may carry the receive line of `id`.
pub fn rx_pin_ok(id: UartId, port: Port, index: u32, mode: PinMode) -> (r: bool)
    ensures
        r == spec_rx_pin_ok(id, port, index, mode),
{
    let pa = PinMode::Peripheral(Periph::A);
    let pc = PinMode::Peripheral(Periph::C);
    match id {
        UartId::Uart0 => port == Port::A && index == 9 && mode == pa,
        UartId::Uart1 => port == Port::A && index == 5 && mode == pc,
        UartId::Uart2 => port == Port::D && index == 25 && mode == pc,
        UartId::Uart3 => port == Port::D && index == 28 && mode == pa,
        UartId::Uart4 => port == Port::D && index == 18 && mode == pc,
    }
}

/// The baud rate divisor for master clock `mck`: mck / (16 * baudrate).
pub open spec fn spec_divisor(mck: u32, baudrate: u32) -> int {
    mck as int / (16 * baudrate as int)
}

/// The divisor for `mck` and `baudrate`, when it is one the generator holds
/// (1 to 65535).
pub fn baud_divisor(mck: u32, baudrate: u32) -> (r: Option<u32>)
    ensures
        r is Some <==> baudrate > 0 && 1 <= spec_divisor(mck, baudrate) <= CD_MAX,
        r matches Some(cd) ==> cd == spec_divisor(mck, baudrate),
{
    if baudrate == 0 {
        return None;
    }
    let cd: u64 = mck as u64 / (16 * baudrate as u64);
    if 1 <= cd && cd <= CD_MAX as u64 {
        Some(cd as u32)
    } else {
        None
    }
}

/// The register accesses that bring up UART `id` with divisor `cd` and `parity`.
pub open spec fn spec_init_ops(id: UartId, cd: u32, parity: Parity) -> Seq<RegOp> {
    seq![
        spec_enable_clock_op(id.spec_pid()),
        RegOp::Write {
            addr: id.spec_reg(UART_CR),
            value: CR_RSTRX | CR_RSTTX | CR_RXDIS | CR_TXDIS | CR_RSTSTA,
        },
        RegOp::Write { addr: id.spec_reg(UART_BRGR), value: cd },
        RegOp::Write { addr: id.spec_reg(UART_MR), value: parity.spec_field() << 9 },
        RegOp::Write { addr: id.spec_reg(UART_CR), value: CR_TXEN | CR_RXEN },
    ]
}

/// Ownership of one UART.
pub struct Uart {
    id: UartId,
}

impl Uart {
    /// The handle of UART `id`; `Peripherals::take` hands out the only one.
    pub(crate) fn new(id: UartId) -> (r: Uart)
        ensures
            r.spec_id() == id,
    {
        Uart { id }
    }

    /// Which UART this is.
    pub closed spec fn spec_id(&self) -> UartId {
        self.id
    }

    /// Which UART this is.
    pub fn id(&self) -> (r: UartId)
        ensures
            r == self.spec_id(),
    {
        self.id
    }
}

/// Serial abstraction: a UART bound to its transmit and receive pins.
pub struct Serial<TX, RX> {
    uart: Uart,
    tx: Pin<TX>,
    rx: Pin<RX>,
    cd: u32,
    parity: Parity,
}

/// Serial receiver
pub struct Rx {
    id: UartId,
}

/// Serial transmitter
pub struct Tx {
    id: UartId,
}

/// What a read does after looking at the status register.
#[derive(Clone, Copy, Debug, PartialEq, Eq, Structural)]
pub enum ReadStep {
    /// Read the byte at `rhr`: it is the data received.
    Data { rhr: u32 },
    /// Read the byte at `rhr` once to clear the error, and report the error.
    Discard { rhr: u32, error: SerialError },
    /// Nothing has been received yet.
    WouldBlock,
}

/// The step a read of UART `id` takes for status word `sr`: any error
/// (parity first, then framing, then overrun) is cleared by one read of the
/// receive holding register and reported; otherwise a received byte is read.
pub open spec fn spec_read_step(id: UartId, sr: u32) -> ReadStep {
    let rhr = id.spec_reg(UART_RHR);
    if sr & SR_PARE != 0 {
        ReadStep::Discard { rhr, error: SerialError::Parity }
    } else if sr & SR_FRAME != 0 {
        ReadStep::Discard { rhr, error: SerialError::Framing }
    } else if sr & SR_OVRE != 0 {
        ReadStep::Discard { rhr, error: SerialError::Overrun }
    } else if sr & SR_RXRDY != 0 {
        ReadStep::Data { rhr }
    } else {
        ReadStep::WouldBlock
    }
}

impl ReadStep {
    /// The register access the step makes, if any.
    pub open spec fn spec_op(self) -> Option<RegOp> {
        match self {
            ReadStep::Data { rhr } => Some(RegOp::ReadByte { addr: rhr }),
            ReadStep::Discard { rhr, .. } => Some(RegOp::ReadByte { addr: rhr }),
            ReadStep::WouldBlock => None,
        }
    }

    /// The register access the step makes, if any.
    pub fn op(&self) -> (r: Option<RegOp>)
        ensures
            r == self.spec_op(),
    {
        match *self {
            ReadStep::Data { rhr } => Some(RegOp::ReadByte { addr: rhr }),
            ReadStep::Discard { rhr, .. } => Some(RegOp::ReadByte { addr: rhr }),
            ReadStep::WouldBlock => None,
        }
    }

    /// What the read returns, given the byte its access read (ignored
    /// where the step reads nothing or discards what it read).
    pub fn result(&self, byte: u8) -> (r: nb::Result<u8, SerialError>)
        ensures
            match *self {
                ReadStep::Data { .. } => r == Ok::<u8, nb::Error<SerialError>>(byte),
                ReadStep::Discard { error, .. } => r == Err::<u8, nb::Error<SerialError>>(
                    nb::Error::Other(error),
                ),
                ReadStep::WouldBlock => r == Err::<u8, nb::Error<SerialError>>(
                    nb::Error::WouldBlock,
                ),
            },
    {
        match *self {
            ReadStep::Data { .. } => Ok(byte),
            ReadStep::Discard { error, .. } => Err(nb::Error::Other(error)),
            ReadStep::WouldBlock => Err(nb::Error::WouldBlock),
        }
    }
}

/// What a write of `byte` to UART `id` does for status word `sr`: the
/// result, and the store of the byte when the transmitter is ready.
pub open spec fn spec_write(id: UartId, sr: u32, byte: u8) -> (
    nb::Result<(), SerialError>,
    Option<RegOp>,
) {
    if sr & SR_TXRDY != 0 {
        (Ok(()), Some(RegOp::WriteByte { addr: id.spec_reg(UART_THR), value: byte }))
    } else {
        (Err(nb::Error::WouldBlock), None)
    }
}

/// What a flush returns for status word `sr`.
pub open spec fn spec_flush(sr: u32) -> nb::Result<(), SerialError> {
    if sr & SR_TXEMPTY != 0 {
        Ok(())
    } else {
        Err(nb::Error::WouldBlock)
    }
}

fn read_step(id: UartId, sr: u32) -> (r: ReadStep)
    ensures
        r == spec_read_step(id, sr),
{
    let rhr = id.reg(UART_RHR);
    if sr & SR_PARE != 0 {
        ReadStep::Discard { rhr, error: SerialError::Parity }
    } else if sr & SR_FRAME != 0 {
        ReadStep::Discard { rhr, error: SerialError::Framing }
    } else if sr & SR_OVRE != 0 {
        ReadStep::Discard { rhr, error: SerialError::Overrun }
    } else if sr & SR_RXRDY != 0 {
        ReadStep::Data { rhr }
    } else {
        ReadStep::WouldBlock
    }
}

fn write_step(id: UartId, sr: u32, byte: u8) -> (r: (nb::Result<(), SerialError>, Option<RegOp>))
    ensures
        r == spec_write(id, sr, byte),
{
    if sr & SR_TXRDY != 0 {
        (Ok(()), Some(RegOp::WriteByte { addr: id.reg(UART_THR), value: byte }))
    } else {
        (Err(nb::Error::WouldBlock), None)
    }
}

fn flush_step(sr: u32) -> (r: nb::Result<(), SerialError>)
    ensures
        r == spec_flush(sr),
{
    if sr & SR_TXEMPTY != 0 {
        Ok(())
    } else {
        Err(nb::Error::WouldBlock)
    }
}

/// The register accesses that send `bytes` in order, waiting before each
/// byte until the transmitter is ready.
pub open spec fn spec_send_ops(id: UartId, bytes: Seq<u8>) -> Seq<RegOp>
    decreases bytes.len(),
{
    if bytes.len() == 0 {
        seq![]
    } else {
        spec_send_ops(id, bytes.drop_last()) + seq![
            RegOp::WaitSet { addr: id.spec_reg(UART_SR), mask: SR_TXRDY },
            RegOp::WriteByte { addr: id.spec_reg(UART_THR), value: bytes.last() },
        ]
    }
}

fn send_ops(id: UartId, bytes: &[u8]) -> (r: Vec<RegOp>)
    ensures
        r@ == spec_send_ops(id, bytes@),
{
    let sr = id.reg(UART_SR);
    let thr = id.reg(UART_THR);
    let mut ops: Vec<RegOp> = Vec::new();
    let mut k: usize = 0;
    while k < bytes.len()
        invariant
            0 <= k <= bytes@.len(),
            sr == id.spec_reg(UART_SR),
            thr == id.spec_reg(UART_THR),
            ops@ == spec_send_ops(id, bytes@.subrange(0, k as int)),
        decreases bytes@.len() - k,
    {
        ops.push(RegOp::WaitSet { addr: sr, mask: SR_TXRDY });
        ops.push(RegOp::WriteByte { addr: thr, value: bytes[k] });
        assert(bytes@.subrange(0, k + 1).drop_last() =~= bytes@.subrange(0, k as int));
        k = k + 1;
        assert(ops@ =~= spec_send_ops(id, bytes@.subrange(0, k as int)));
    }
    assert(bytes@.subrange(0, k as int) =~= bytes@);
    ops
}

impl<TX: ModeTag, RX: ModeTag> Serial<TX, RX> {
    /// Brings up `uart` on the pins `tx` and `rx` with `config`, from the
    /// master clock of `clocks`; returns the binding and the register
    /// accesses that bring it up, in order. Fails when a pin is not one the
    /// UART can use in its mode, or when the baud rate is zero or gives a
    /// divisor the generator does not hold.
    pub fn new(uart: Uart, tx: Pin<TX>, rx: Pin<RX>, config: UartConfig, clocks: &Clocks) -> (r:
        Result<(Serial<TX, RX>, Vec<RegOp>), InvalidConfig>)
        ensures
            r is Ok <==> {
                &&& spec_tx_pin_ok(uart.spec_id(), tx.spec_port(), tx.spec_index(), TX::spec_mode())
                &&& spec_rx_pin_ok(uart.spec_id(), rx.spec_port(), rx.spec_index(), RX::spec_mode())
                &&& config.baudrate.0 > 0
                &&& 1 <= spec_divisor(clocks.spec_mck(), config.baudrate.0) <= CD_MAX
            },
            r matches Ok((serial, ops)) ==> {
                &&& serial.spec_uart() == uart.spec_id()
                &&& serial.spec_tx() == (tx.spec_port(), tx.spec_index())
                &&& serial.spec_rx() == (rx.spec_port(), rx.spec_index())
                &&& serial.spec_cd() == spec_divisor(clocks.spec_mck(), config.baudrate.0)
                &&& serial.spec_parity() == config.parity
                &&& ops@ == serial.spec_programmed()
                &&& ops@ == spec_init_ops(
                    uart.spec_id(),
                    spec_divisor(clocks.spec_mck(), config.baudrate.0) as u32,
                    config.parity,
                )
            },
    {
        let id = uart.id();
        if !tx_pin_ok(id, tx.port(), tx.index(), TX::mode()) {
            return Err(InvalidConfig);
        }
        if !rx_pin_ok(id, rx.port(), rx.index(), RX::mode()) {
            return Err(InvalidConfig);
        }
        let cd = match baud_divisor(clocks.mck().0, config.baudrate.0) {
            Some(cd) => cd,
            None => {
                return Err(InvalidConfig);
            },
        };
        let mut ops: Vec<RegOp> = Vec::new();
        ops.push(enable_clock_op(id.pid()));
        ops.push(
            RegOp::Write {
                addr: id.reg(UART_CR),
                value: CR_RSTRX | CR_RSTTX | CR_RXDIS | CR_TXDIS | CR_RSTSTA,
            },
        );
        ops.push(RegOp::Write { addr: id.reg(UART_BRGR), value: cd });
        ops.push(RegOp::Write { addr: id.reg(UART_MR), value: config.parity.field() << 9 });
        ops.push(RegOp::Write { addr: id.reg(UART_CR), value: CR_TXEN | CR_RXEN });
        assert(ops@ =~= spec_init_ops(id, cd, config.parity));
        Ok((Serial { uart, tx, rx, cd, parity: config.parity }, ops))
    }

    /// Which UART the binding drives.
    pub closed spec fn spec_uart(&self) -> UartId {
        self.uart.id
    }

    /// The baud rate divisor the UART was brought up with.
    pub closed spec fn spec_cd(&self) -> u32 {
        self.cd
    }

    /// The parity the UART was brought up with.
    pub closed spec fn spec_parity(&self) -> Parity {
        self.parity
    }

    /// The register accesses that brought the UART up.
    pub open spec fn spec_programmed(&self) -> Seq<RegOp> {
        spec_init_ops(self.spec_uart(), self.spec_cd(), self.spec_parity())
    }

    /// Controller and number of the transmit pin.
    pub closed spec fn spec_tx(&self) -> (Port, u32) {
        (self.tx.spec_port(), self.tx.spec_index())
    }

    /// Controller and number of the receive pin.
    pub closed spec fn spec_rx(&self) -> (Port, u32) {
        (self.rx.spec_port(), self.rx.spec_index())
    }

    /// Splits the binding into a transmitter and a receiver half. Sending
    /// a byte through the transmitter half makes the same register access,
    /// with the same result, as sending it through the binding, and reading
    /// through the receiver half takes the same step as reading through it.
    pub fn split(self) -> (r: (Tx, Rx))
        ensures
            r.0.spec_uart() == self.spec_uart(),
            r.1.spec_uart() == self.spec_uart(),
            forall|sr: u32, byte: u8|
                #[trigger] spec_write(r.0.spec_uart(), sr, byte) == spec_write(self.spec_uart(), sr, byte),
            forall|sr: u32|
                #[trigger] spec_read_step(r.1.spec_uart(), sr) == spec_read_step(self.spec_uart(), sr),
    {
        (Tx { id: self.uart.id }, Rx { id: self.uart.id })
    }

    /// Releases the UART and its pins. Bringing the UART up again on them
    /// with the same configuration and master clock repeats the register
    /// accesses that brought this binding up.
    pub fn release(self) -> (r: (Uart, Pin<TX>, Pin<RX>))
        ensures
            r.0.spec_id() == self.spec_uart(),
            forall|mck: u32, config: UartConfig|
                spec_divisor(mck, config.baudrate.0) == self.spec_cd() && config.parity
                    == self.spec_parity() ==> #[trigger] spec_init_ops(
                    r.0.spec_id(),
                    spec_divisor(mck, config.baudrate.0) as u32,
                    config.parity,
                ) == self.spec_programmed(),
            (r.1.spec_port(), r.1.spec_index()) == self.spec_tx(),
            (r.2.spec_port(), r.2.spec_index()) == self.spec_rx(),
    {
        (self.uart, self.tx, self.rx)
    }

    /// Reads a byte: the step to take for status word `sr`.
    pub fn read(&mut self, sr: u32) -> (r: ReadStep)
        ensures
            final(self).spec_uart() == old(self).spec_uart(),
            final(self).spec_tx() == old(self).spec_tx(),
            final(self).spec_rx() == old(self).spec_rx(),
            r == spec_read_step(old(self).spec_uart(), sr),
    {
        read_step(self.uart.id, sr)
    }

    /// Writes `byte` if the transmitter is ready in status word `sr`.
    pub fn write(&mut self, sr: u32, byte: u8) -> (r: (nb::Result<(), SerialError>, Option<RegOp>))
        ensures
            final(self).spec_uart() == old(self).spec_uart(),
            final(self).spec_tx() == old(self).spec_tx(),
            final(self).spec_rx() == old(self).spec_rx(),
            r == spec_write(old(self).spec_uart(), sr, byte),
    {
        write_step(self.uart.id, sr, byte)
    }

    /// Succeeds once nothing is left to send in status word `sr`.
    pub fn flush(&mut self, sr: u32) -> (r: nb::Result<(), SerialError>)
        ensures
            final(self).spec_uart() == old(self).spec_uart(),
            final(self).spec_tx() == old(self).spec_tx(),
            final(self).spec_rx() == old(self).spec_rx(),
            r == spec_flush(sr),
    {
        flush_step(sr)
    }

    /// The register accesses that send `bytes`, each once the transmitter
    /// is ready.
    pub fn write_bytes(&mut self, bytes: &[u8]) -> (r: Vec<RegOp>)
        ensures
            final(self).spec_uart() == old(self).spec_uart(),
            final(self).spec_tx() == old(self).spec_tx(),
            final(self).spec_rx() == old(self).spec_rx(),
            r@ == spec_send_ops(old(self).spec_uart(), bytes@),
    {
        send_ops(self.uart.id, bytes)
    }
}

impl Rx {
    /// Which UART the half belongs to.
    pub closed spec fn spec_uart(&self) -> UartId {
        self.id
    }

    /// Reads a byte: the step to take for status word `sr`.
    pub fn read(&mut self, sr: u32) -> (r: ReadStep)
        ensures
            final(self).spec_uart() == old(self).spec_uart(),
            r == spec_read_step(old(self).spec_uart(), sr),
    {
        read_step(self.id, sr)
    }
}

impl Tx {
    /// Which UART the half belongs to.
    pub closed spec fn spec_uart(&self) -> UartId {
        self.id
    }

    /// Writes `byte` if the transmitter is ready in status word `sr`.
    pub fn write(&mut self, sr: u32, byte: u8) -> (r: (nb::Result<(), SerialError>, Option<RegOp>))
        ensures
            final(self).spec_uart() == old(self).spec_uart(),
            r == spec_write(old(self).spec_uart(), sr, byte),
    {
        write_step(self.id, sr, byte)
    }

    /// Succeeds once nothing is left to send in status word `sr`.
    pub fn flush(&mut self, sr: u32) -> (r: nb::Result<(), SerialError>)
        ensures
            final(self).spec_uart() == old(self).spec_uart(),
            r == spec_flush(sr),
    {
        flush_step(sr)
    }

    /// The register accesses that send `bytes`, each once the transmitter
    /// is ready.
    pub fn write_bytes(&mut self, bytes: &[u8]) -> (r: Vec<RegOp>)
        ensures
            final(self).spec_uart() == old(self).spec_uart(),
            r@ == spec_send_ops(old(self).spec_uart(), bytes@),
    {
        send_ops(self.id, bytes)
    }
}

/// A binding that `Serial::new` brought up from master clock `mck` and
/// `config`, once released, is brought up again by the same call with the
/// same register accesses: `release` returns its UART, and `Serial::new`
/// programs only the UART, the divisor and the parity.
pub proof fn lemma_release_rebuild<TX: ModeTag, RX: ModeTag>(
    serial: Serial<TX, RX>,
    released: Uart,
    mck: u32,
    config: UartConfig,
)
    requires
        serial.spec_cd() == spec_divisor(mck, config.baudrate.0),
        serial.spec_parity() == config.parity,
        released.spec_id() == serial.spec_uart(),
    ensures
        spec_init_ops(released.spec_id(), spec_divisor(mck, config.baudrate.0) as u32, config.parity)
            == serial.spec_programmed(),
{
}

/// After bringing a UART up at baud rate `baudrate` from master clock
/// `mck`, the baud rate generator holds mck / (16 * baudrate), rounded down.
pub proof fn lemma_baud_register(id: UartId, mck: u32, baudrate: u32, parity: Parity)
    requires
        baudrate > 0,
        1 <= spec_divisor(mck, baudrate) <= CD_MAX,
    ensures
        spec_init_ops(id, spec_divisor(mck, baudrate) as u32, parity)[2] == (RegOp::Write {
            addr: id.spec_reg(UART_BRGR),
            value: (mck as int / (16 * baudrate as int)) as u32,
        }),
{
}

} // verus!
