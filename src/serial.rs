//! Serial port decisions: what a status register reading means for a
//! receive, a transmit or a flush, and the baud rate divisor.
use vstd::prelude::*;

use crate::rcc::Clocks;

verus! {

/// Serial error.
#[derive(Debug, Clone, Copy, PartialEq, Eq, Structural)]
#[non_exhaustive]
pub enum Error {
    /// Framing error
    Framing,
    /// Noise error
    Noise,
    /// RX buffer overrun
    Overrun,
    /// Parity check error
    Parity,
}

/// Interrupt event.
#[derive(Debug, Clone, Copy, PartialEq, Eq, Structural)]
pub enum Event {
    /// New data has been received
    Rxne,
    /// New data can be sent
    Txe,
    /// Idle line state detected
    Idle,
}

/// Why a non-blocking serial operation returned no value.
#[derive(Debug, Clone, Copy, PartialEq, Eq, Structural)]
pub enum SerialError {
    /// The operation would have to wait; try again.
    WouldBlock,
    /// The operation failed.
    Other(Error),
}

/// The flags of the status register that the operations read.
#[derive(Debug, Clone, Copy, PartialEq, Eq, Structural)]
pub struct UsartStatus {
    pub pe: bool,
    pub fe: bool,
    pub ne: bool,
    pub ore: bool,
    pub rxne: bool,
    pub txe: bool,
    pub tc: bool,
}

/// Outcome of a receive: errors first, by priority parity, framing,
/// noise, overrun; else the byte if one is there; else wait.
pub open spec fn read_outcome(sr: UsartStatus, data: u8) -> Result<u8, SerialError> {
    if sr.pe {
        Err(SerialError::Other(Error::Parity))
    } else if sr.fe {
        Err(SerialError::Other(Error::Framing))
    } else if sr.ne {
        Err(SerialError::Other(Error::Noise))
    } else if sr.ore {
        Err(SerialError::Other(Error::Overrun))
    } else if sr.rxne {
        Ok(data)
    } else {
        Err(SerialError::WouldBlock)
    }
}

/// Decides a receive from the status register and the data register,
/// both read once (the status first).
pub fn read(sr: &UsartStatus, data: u8) -> (r: Result<u8, SerialError>)
    ensures
        r == read_outcome(*sr, data),
{
    if sr.pe {
        Err(SerialError::Other(Error::Parity))
    } else if sr.fe {
        Err(SerialError::Other(Error::Framing))
    } else if sr.ne {
        Err(SerialError::Other(Error::Noise))
    } else if sr.ore {
        Err(SerialError::Other(Error::Overrun))
    } else if sr.rxne {
        Ok(data)
    } else {
        Err(SerialError::WouldBlock)
    }
}

/// Decides a transmit: the byte goes to the data register only when the
/// transmit register is empty.
pub fn write(sr: &UsartStatus) -> (r: Result<(), SerialError>)
    ensures
        r == (if sr.txe { Ok(()) } else { Err(SerialError::WouldBlock) }),
{
    if sr.txe {
        Ok(())
    } else {
        Err(SerialError::WouldBlock)
    }
}

/// Decides a flush: done once transmission is complete.
pub fn flush(sr: &UsartStatus) -> (r: Result<(), SerialError>)
    ensures
        r == (if sr.tc { Ok(()) } else { Err(SerialError::WouldBlock) }),
{
    if sr.tc {
        Ok(())
    } else {
        Err(SerialError::WouldBlock)
    }
}

/// Baud rate register value for `baud_rate` on the peripheral bus clock.
pub fn baud_divisor(clocks: &Clocks, baud_rate: u32) -> (r: u32)
    requires
        baud_rate > 0,
    ensures
        r as int == clocks.spec_pclk() / (baud_rate as int),
{
    clocks.pclk() / baud_rate
}

/// Marks a pin that can carry the transmit line of `USART`.
pub trait TxPin<USART> {}

/// Marks a pin that can carry the receive line of `USART`.
pub trait RxPin<USART> {}

/// Serial port: owns the port's register block and its pins.
pub struct Serial<USART, TXPIN, RXPIN> {
    usart: USART,
    pins: (TXPIN, RXPIN),
}

impl<USART, TXPIN, RXPIN> Serial<USART, TXPIN, RXPIN> {
    pub closed spec fn spec_parts(&self) -> (USART, (TXPIN, RXPIN)) {
        (self.usart, self.pins)
    }

    /// Takes ownership of a port and its pins.
    pub fn new(usart: USART, pins: (TXPIN, RXPIN)) -> (r: Self)
        where
            TXPIN: TxPin<USART>,
            RXPIN: RxPin<USART>,
        ensures
            r.spec_parts() == (usart, pins),
    {
        Serial { usart, pins }
    }

    /// The register block, for running the port's register accesses.
    pub fn regs(&self) -> (r: &USART)
        ensures
            *r == self.spec_parts().0,
    {
        &self.usart
    }

    /// Gives the register block and the pins back.
    pub fn release(self) -> (r: (USART, (TXPIN, RXPIN)))
        ensures
            r == self.spec_parts(),
    {
        (self.usart, self.pins)
    }
}

} // verus!
