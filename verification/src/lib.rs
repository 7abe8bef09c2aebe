//! Verified core of a Modbus RTU debugger for RS485 lines: frame checksums,
//! hex request editing, frame description, the serial line daemon's
//! decisions and the front panel's state.

pub mod crc;
pub mod hexfmt;
pub mod text;
pub mod modbus;
pub mod settings;
pub mod serial_interface;
pub mod gui;
