//! The one set of peripheral handles of the program.
use vstd::prelude::*;

use crate::gpio::{GpioExt, Pio, Port};
use crate::sdram::Sdramc;
use crate::serial::{Uart, UartId};

verus! {

/// Every peripheral handle the library drives. Holding a handle is owning
/// the peripheral.
pub struct Peripherals {
    pub pioa: Pio,
    pub piob: Pio,
    pub pioc: Pio,
    pub piod: Pio,
    pub pioe: Pio,
    pub uart0: Uart,
    pub uart1: Uart,
    pub uart2: Uart,
    pub uart3: Uart,
    pub uart4: Uart,
    pub sdramc: Sdramc,
}

impl Peripherals {
    /// Hands out the peripherals if `taken` says they have not been handed
    /// out yet, and records that they have. With one flag for the whole
    /// program, no peripheral, and so no pin, ever has two handles.
    pub fn take(taken: &mut bool) -> (r: Option<Peripherals>)
        ensures
            r is Some <==> !*old(taken),
            *final(taken),
            r matches Some(p) ==> {
                &&& p.pioa.spec_port() == Port::A
                &&& p.piob.spec_port() == Port::B
                &&& p.pioc.spec_port() == Port::C
                &&& p.piod.spec_port() == Port::D
                &&& p.pioe.spec_port() == Port::E
                &&& p.uart0.spec_id() == UartId::Uart0
                &&& p.uart1.spec_id() == UartId::Uart1
                &&& p.uart2.spec_id() == UartId::Uart2
                &&& p.uart3.spec_id() == UartId::Uart3
                &&& p.uart4.spec_id() == UartId::Uart4
            },
    {
        if *taken {
            return None;
        }
        *taken = true;
        Some(
            Peripherals {
                pioa: Pio::new(Port::A),
                piob: Pio::new(Port::B),
                pioc: Pio::new(Port::C),
                piod: Pio::new(Port::D),
                pioe: Pio::new(Port::E),
                uart0: Uart::new(UartId::Uart0),
                uart1: Uart::new(UartId::Uart1),
                uart2: Uart::new(UartId::Uart2),
                uart3: Uart::new(UartId::Uart3),
                uart4: Uart::new(UartId::Uart4),
                sdramc: Sdramc::new(),
            },
        )
    }
}

} // verus!
