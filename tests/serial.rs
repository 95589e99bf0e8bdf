use atsamx7x_hal::clock_gen::{
    Clocks, MainckConfig, MasterClockConfig, MasterDivider, MasterPrescale, PllackConfig,
    SlckConfig, SystemClockConfig, UpllckConfig,
};
use atsamx7x_hal::gpio::{GpioExt, PeriphA, PeripheralCntr, Pin, Pio, Port};
use atsamx7x_hal::regs::RegOp;
use atsamx7x_hal::serial::{
    Parity, ReadStep, Serial, SerialError, Uart, UartConfig, UartId, SR_FRAME, SR_OVRE, SR_PARE,
    SR_RXRDY, SR_TXEMPTY, SR_TXRDY,
};
use atsamx7x_hal::time::{Bps, Hertz};
use atsamx7x_hal::peripherals::Peripherals;

fn serial_pio(port: Port) -> Pio {
    let mut taken = false;
    let p = Peripherals::take(&mut taken).unwrap();
    match port {
        Port::A => p.pioa,
        Port::B => p.piob,
        Port::C => p.pioc,
        Port::D => p.piod,
        Port::E => p.pioe,
    }
}

fn uart_of(id: UartId) -> Uart {
    let mut taken = false;
    let p = Peripherals::take(&mut taken).unwrap();
    match id {
        UartId::Uart0 => p.uart0,
        UartId::Uart1 => p.uart1,
        UartId::Uart2 => p.uart2,
        UartId::Uart3 => p.uart3,
        UartId::Uart4 => p.uart4,
    }
}


const UART0: u32 = 0x400E_0800;

fn clocks_150mhz() -> Clocks {
    let cfg = SystemClockConfig {
        slck_conf: SlckConfig::default(),
        mainck_conf: MainckConfig::default().use_crystal(Hertz(12_000_000)).startup_cycles(100),
        plla_conf: PllackConfig::default().from_divider(1, 49),
        upll_conf: UpllckConfig::default().enable(),
        mck_conf: MasterClockConfig::default()
            .src_pllack()
            .from_divider(MasterPrescale::Pres2, MasterDivider::Div2),
    };
    cfg.freeze().unwrap().0
}

fn uart0_pins() -> (Pin<PeripheralCntr<PeriphA>>, Pin<PeripheralCntr<PeriphA>>) {
    let (parts, _) = serial_pio(Port::A).split();
    (parts.p10.into_peripheral_a().0, parts.p9.into_peripheral_a().0)
}

type Uart0Serial = Serial<PeripheralCntr<PeriphA>, PeripheralCntr<PeriphA>>;

fn uart0(config: UartConfig) -> (Uart0Serial, Vec<RegOp>) {
    let clocks = clocks_150mhz();
    let (tx, rx) = uart0_pins();
    Serial::new(uart_of(UartId::Uart0), tx, rx, config, &clocks).unwrap()
}

#[test]
fn uart0_at_115200_with_150_mhz() {
    let (_, ops) = uart0(UartConfig::default().baudrate(Bps(115_200)));
    assert_eq!(
        ops,
        vec![
            RegOp::Write { addr: 0x400E_0610, value: 1 << 7 },
            RegOp::Write { addr: UART0, value: (1 << 2) | (1 << 3) | (1 << 5) | (1 << 7) | (1 << 8) },
            RegOp::Write { addr: UART0 + 0x20, value: 81 },
            RegOp::Write { addr: UART0 + 0x04, value: 4 << 9 },
            RegOp::Write { addr: UART0, value: (1 << 6) | (1 << 4) },
        ]
    );
}

#[test]
fn baud_divisor_is_truncated() {
    let (_, ops) = uart0(UartConfig::default().baudrate(Bps(9_600)).parity_even());
    assert_eq!(ops[2], RegOp::Write { addr: UART0 + 0x20, value: 976 });
    assert_eq!(ops[3], RegOp::Write { addr: UART0 + 0x04, value: 0 });
}

#[test]
fn parity_codes() {
    let c = UartConfig::default();
    assert_eq!(c.baudrate, Bps(19_200));
    for (cfg, code) in [
        (c.parity_even(), 0),
        (c.parity_odd(), 1),
        (c.parity_space(), 2),
        (c.parity_mark(), 3),
        (c.parity_none(), 4),
        (UartConfig { parity: Parity::ParityMultidrop, ..c }, 4),
    ] {
        let (_, ops) = uart0(cfg);
        assert_eq!(ops[3], RegOp::Write { addr: UART0 + 0x04, value: code << 9 });
    }
}

#[test]
fn wrong_pins_are_rejected() {
    let clocks = clocks_150mhz();
    let (parts, _) = serial_pio(Port::A).split();
    let tx = parts.p9.into_peripheral_a().0;
    let rx = parts.p10.into_peripheral_a().0;
    let cfg = UartConfig::default();
    assert!(Serial::new(uart_of(UartId::Uart0), tx, rx, cfg, &clocks).is_err());
    let tx = parts.p4.into_peripheral_c().0;
    let rx = parts.p5.into_peripheral_c().0;
    assert!(Serial::new(uart_of(UartId::Uart1), tx, rx, cfg, &clocks).is_ok());
}

#[test]
fn unreachable_baud_rates_are_rejected() {
    let clocks = clocks_150mhz();
    let cfg = UartConfig::default();
    for baud in [0, 10_000_000, 100] {
        let (tx, rx) = uart0_pins();
        assert!(Serial::new(uart_of(UartId::Uart0), tx, rx, cfg.baudrate(Bps(baud)), &clocks).is_err());
    }
}

#[test]
fn read_with_framing_error_and_data_reports_the_error() {
    let (mut serial, _) = uart0(UartConfig::default());
    let step = serial.read(SR_FRAME | SR_RXRDY);
    assert_eq!(step, ReadStep::Discard { rhr: UART0 + 0x18, error: SerialError::Framing });
    assert_eq!(step.op(), Some(RegOp::ReadByte { addr: UART0 + 0x18 }));
    assert_eq!(step.result(0x41), Err(nb::Error::Other(SerialError::Framing)));
}

#[test]
fn read_errors_in_order() {
    let (mut serial, _) = uart0(UartConfig::default());
    let all = SR_PARE | SR_FRAME | SR_OVRE | SR_RXRDY;
    assert_eq!(serial.read(all).result(0), Err(nb::Error::Other(SerialError::Parity)));
    assert_eq!(serial.read(SR_OVRE).result(0), Err(nb::Error::Other(SerialError::Overrun)));
    let step = serial.read(SR_RXRDY);
    assert_eq!(step.op(), Some(RegOp::ReadByte { addr: UART0 + 0x18 }));
    assert_eq!(step.result(0x41), Ok(0x41));
    let step = serial.read(SR_TXRDY);
    assert_eq!(step.op(), None);
    assert_eq!(step.result(0x41), Err(nb::Error::WouldBlock));
}

#[test]
fn write_and_flush() {
    let (mut serial, _) = uart0(UartConfig::default());
    assert_eq!(
        serial.write(SR_TXRDY, 0x55),
        (Ok(()), Some(RegOp::WriteByte { addr: UART0 + 0x1C, value: 0x55 }))
    );
    assert_eq!(serial.write(0, 0x55), (Err(nb::Error::WouldBlock), None));
    assert_eq!(serial.flush(SR_TXEMPTY), Ok(()));
    assert_eq!(serial.flush(SR_TXRDY), Err(nb::Error::WouldBlock));
}

#[test]
fn split_tx_writes_like_the_binding() {
    let (mut serial, _) = uart0(UartConfig::default());
    let whole: Vec<_> = (0..=255u8).map(|b| serial.write(SR_TXRDY, b)).collect();
    let blocked = serial.write(0, 7);
    let (mut tx, mut rx) = serial.split();
    let halves: Vec<_> = (0..=255u8).map(|b| tx.write(SR_TXRDY, b)).collect();
    assert_eq!(whole, halves);
    assert_eq!(tx.write(0, 7), blocked);
    assert_eq!(tx.flush(SR_TXEMPTY), Ok(()));
    assert_eq!(rx.read(SR_RXRDY), ReadStep::Data { rhr: UART0 + 0x18 });
}

#[test]
fn release_and_rebuild_programs_the_same_registers() {
    let clocks = clocks_150mhz();
    let cfg = UartConfig::default().baudrate(Bps(57_600)).parity_odd();
    let (tx, rx) = uart0_pins();
    let (serial, first) = Serial::new(uart_of(UartId::Uart0), tx, rx, cfg, &clocks).unwrap();
    let (uart, tx, rx) = serial.release();
    assert_eq!(uart.id(), UartId::Uart0);
    assert_eq!((tx.port(), tx.index()), (Port::A, 10));
    assert_eq!((rx.port(), rx.index()), (Port::A, 9));
    let (_, second) = Serial::new(uart, tx, rx, cfg, &clocks).unwrap();
    assert_eq!(first, second);
}

#[test]
fn write_bytes_waits_before_each_byte() {
    let (mut serial, _) = uart0(UartConfig::default());
    let ops = serial.write_bytes(b"hi");
    let wait = RegOp::WaitSet { addr: UART0 + 0x14, mask: SR_TXRDY };
    assert_eq!(
        ops,
        vec![
            wait,
            RegOp::WriteByte { addr: UART0 + 0x1C, value: b'h' },
            wait,
            RegOp::WriteByte { addr: UART0 + 0x1C, value: b'i' },
        ]
    );
    assert!(serial.write_bytes(b"").is_empty());
    let (mut tx, _) = serial.split();
    assert_eq!(tx.write_bytes(b"hi"), ops);
}
