use vstd::prelude::*;

verus! {

// Sensor register map. Every address is a 7-bit value: the top bit of a
// transaction's first byte is the read/write discriminator and must never
// collide with address bits.

/// Motion-status latch; reading it tells whether motion occurred.
pub const REG_MOTION: u8 = 0x02;

/// Low byte of the latched horizontal delta.
pub const REG_DELTA_X_L: u8 = 0x03;

/// High byte of the latched horizontal delta.
pub const REG_DELTA_X_H: u8 = 0x04;

/// Low byte of the latched vertical delta.
pub const REG_DELTA_Y_L: u8 = 0x05;

/// High byte of the latched vertical delta.
pub const REG_DELTA_Y_H: u8 = 0x06;

/// Configuration register holding, among other bits, the rest-mode enable.
pub const REG_CONFIG_2: u8 = 0x10;

/// Microcode-upload control: takes the enable byte, then the begin byte.
pub const REG_SROM_ENABLE: u8 = 0x13;

/// Writing the reset-trigger byte here forces a power-up reset.
pub const REG_POWER_UP_RESET: u8 = 0x3A;

/// Burst-mode register: arming it, then reading it, yields the full
/// twelve-byte motion packet.
pub const REG_MOTION_BURST: u8 = 0x50;

/// Streaming target for the microcode image during upload.
pub const REG_SROM_LOAD_BURST: u8 = 0x62;

/// Byte written to [`REG_POWER_UP_RESET`] to trigger the reset.
pub const POWER_UP_RESET_TRIGGER: u8 = 0x5A;

/// First byte written to [`REG_SROM_ENABLE`]: enter upload mode.
pub const SROM_ENABLE_BYTE: u8 = 0x1D;

/// Second byte written to [`REG_SROM_ENABLE`]: begin the upload.
pub const SROM_BEGIN_BYTE: u8 = 0x18;

/// Terminal configuration byte written to [`REG_CONFIG_2`] after upload.
pub const CONFIG_FINALIZE_BYTE: u8 = 0x00;

/// Byte written to [`REG_MOTION_BURST`] to arm burst mode.
pub const MOTION_BURST_ARM_BYTE: u8 = 0xFF;

/// Placeholder byte clocked out while receiving during a register read.
pub const READ_PLACEHOLDER_BYTE: u8 = 0xFF;

/// Bit of [`REG_CONFIG_2`] that enables rest (low-power) mode.
pub const REST_MODE_BIT: u8 = 0x20;

/// Length in bytes of a burst-mode motion packet.
pub const BURST_PACKET_LEN: usize = 12;

// Protocol-mandated minimum delays, in microseconds. Exceeding them is
// safe; going under them is not: the sensor returns stale or wrong data.

/// Minimum pause between the address byte and the data phase of any
/// transaction.
pub const ADDRESS_DATA_DELAY_MICROS: u32 = 160;

/// Bring-up delay: the chip-select reset pulse width and the wait after the
/// power-up-reset write.
pub const INIT_DELAY_MICROS: u32 = 50000;

/// Wait between the upload-enable byte and the upload-begin byte.
pub const SROM_ENABLE_DELAY_MICROS: u32 = 10000;

/// Wait after streaming the microcode image, covering worst-case write
/// time.
pub const SROM_DOWNLOAD_DELAY_MICROS: u32 = 10000;

} // verus!
