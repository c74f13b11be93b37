//! The board's pin naming table.
//!
//! Constant names say what a pin is connected to; constant values are the
//! line numbers in the microcontroller's GPIO bit mapping. The drivers
//! consume only these named constants, never raw numeric literals, so the
//! board's topology stays out of the driver logic.

use vstd::prelude::*;

verus! {

// On the edge connector
pub const P0: u8 = 3;

pub const P1: u8 = 2;

pub const P2: u8 = 1;

/// COL_1 (analog/digital)
pub const P3: u8 = 4;

/// COL_2 (analog/digital)
pub const P4: u8 = 5;

/// BTN_A
pub const P5: u8 = 17;

/// COL_9
pub const P6: u8 = 12;

/// COL_8
pub const P7: u8 = 11;

pub const P8: u8 = 18;

/// COL_7
pub const P9: u8 = 10;

/// COL_3 (analog/digital)
pub const P10: u8 = 6;

/// BTN_B
pub const P11: u8 = 26;

pub const P12: u8 = 20;

/// SCK
pub const P13: u8 = 23;

/// MISO
pub const P14: u8 = 22;

/// MOSI
pub const P15: u8 = 21;

pub const P16: u8 = 16;

/// SCL
pub const P19: u8 = 0;

/// SDA
pub const P20: u8 = 30;

// LED-matrix display lines
pub const COL_1: u8 = 4;

pub const COL_2: u8 = 5;

pub const COL_3: u8 = 6;

pub const COL_4: u8 = 7;

pub const COL_5: u8 = 8;

pub const COL_6: u8 = 9;

pub const COL_7: u8 = 10;

pub const COL_8: u8 = 11;

pub const COL_9: u8 = 12;

pub const ROW_1: u8 = 13;

pub const ROW_2: u8 = 14;

pub const ROW_3: u8 = 15;

pub const BUTTON_A: u8 = 17;

pub const BUTTON_B: u8 = 26;

pub const TARGET_NRESET: u8 = 19;

/// Master out, slave in
pub const SPI_MOSI: u8 = 21;

/// Master in, slave out
pub const SPI_MISO: u8 = 22;

/// Serial clock
pub const SPI_SCK: u8 = 23;

/// UART transmit line
pub const TX: u8 = 24;

/// UART receive line
pub const RX: u8 = 25;

// Accelerometer interrupt lines
pub const ACCEL_INT2: u8 = 27;

pub const ACCEL_INT1: u8 = 28;

/// Magnetometer interrupt line
pub const MAG_INT1: u8 = 29;

/// Serial data line
pub const I2C_SDA0: u8 = 30;

/// Serial clock line
pub const I2C_SCL0: u8 = 0;

} // verus!
