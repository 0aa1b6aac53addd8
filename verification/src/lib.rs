//! Protocol engine for an optical motion sensor driven over a synchronous
//! serial bus, fused with digital button states into a fixed-format input
//! report for a polled transport.
//!
//! The crate holds the pure, verified core of the driver: register-level
//! transaction framing with its timing discipline, the power-up and microcode
//! upload sequence as an explicit state machine, burst-packet decoding into
//! signed motion deltas, button-mask packing, and report assembly. Everything
//! that touches hardware (the serial bus itself, chip select, timers, the
//! transport stack) lives outside: it performs the bus operations this crate
//! plans and hands back the bytes the sensor returned.

pub mod bus;
pub mod button_data;
pub mod init;
pub mod motion_data;
pub mod mouse_report;
pub mod poll;
pub mod regs;
