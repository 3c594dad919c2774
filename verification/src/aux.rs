//! The registers of the auxiliary peripherals.

use crate::register::Register;
use vstd::prelude::*;

verus! {

/// The registers of the mini UART.
#[allow(non_snake_case)]
pub struct MiniUartStruct {
    pub IO: Register<u32>,
    pub IER: Register<u32>,
    pub IIR: Register<u32>,
    pub LCR: Register<u32>,
    pub MCR: Register<u32>,
    pub LSR: Register<u32>,
    pub MSR: Register<u32>,
    pub scratch: Register<u32>,
    pub control: Register<u32>,
    pub status: Register<u32>,
    pub baud_rate: Register<u32>,
}

impl MiniUartStruct {
    /// Whether `other` holds the same words, but for the data register.
    pub open spec fn same_but_io(&self, other: &Self) -> bool {
        &&& self.IER == other.IER
        &&& self.IIR == other.IIR
        &&& self.LCR == other.LCR
        &&& self.MCR == other.MCR
        &&& self.LSR == other.LSR
        &&& self.MSR == other.MSR
        &&& self.scratch == other.scratch
        &&& self.control == other.control
        &&& self.status == other.status
        &&& self.baud_rate == other.baud_rate
    }
}

/// The register block of the auxiliary peripherals.
#[allow(non_snake_case)]
pub struct AUXStruct {
    pub IRQ: Register<u32>,
    pub ENABLES: Register<u32>,
    pub MU: MiniUartStruct,
}

} // verus!
