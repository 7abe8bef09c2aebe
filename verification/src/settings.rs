//! Serial line settings, as plain values that the daemon keeps and the port
//! driver applies.

use vstd::prelude::*;

verus! {

/// Line speed.
#[derive(Debug, Clone, Copy, PartialEq, Eq, Structural)]
pub enum BaudRate {
    Baud110,
    Baud300,
    Baud600,
    Baud1200,
    Baud2400,
    Baud4800,
    Baud9600,
    Baud19200,
    Baud38400,
    Baud57600,
    Baud115200,
    /// Any other speed, in bits per second.
    BaudOther(usize),
}

/// The speed of a line setting, in bits per second.
pub open spec fn bits_per_second(r: BaudRate) -> nat {
    match r {
        BaudRate::Baud110 => 110,
        BaudRate::Baud300 => 300,
        BaudRate::Baud600 => 600,
        BaudRate::Baud1200 => 1200,
        BaudRate::Baud2400 => 2400,
        BaudRate::Baud4800 => 4800,
        BaudRate::Baud9600 => 9600,
        BaudRate::Baud19200 => 19200,
        BaudRate::Baud38400 => 38400,
        BaudRate::Baud57600 => 57600,
        BaudRate::Baud115200 => 115200,
        BaudRate::BaudOther(n) => n as nat,
    }
}

/// Bits per character.
#[derive(Debug, Clone, Copy, PartialEq, Eq, Structural)]
pub enum CharSize {
    Bits5,
    Bits6,
    Bits7,
    Bits8,
}

/// Parity checking.
#[derive(Debug, Clone, Copy, PartialEq, Eq, Structural)]
pub enum Parity {
    ParityNone,
    ParityOdd,
    ParityEven,
}

/// Stop bits.
#[derive(Debug, Clone, Copy, PartialEq, Eq, Structural)]
pub enum StopBits {
    Stop1,
    Stop2,
}

/// Flow control.
#[derive(Debug, Clone, Copy, PartialEq, Eq, Structural)]
pub enum FlowControl {
    FlowNone,
    FlowSoftware,
    FlowHardware,
}

} // verus!
