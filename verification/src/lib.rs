//! A minimal firmware runtime for a microcontroller board: GPIO pin control
//! for one LED-matrix cell, a UART driver for serial diagnostics, a calibrated
//! busy-wait timer, and the boot/panic routines that tie them together.
//!
//! The two hardware register blocks are modelled as explicit, owned values
//! (`gpio::GpioBlock`, `serial::UartBlock`) passed by reference to the
//! drivers, so that every volatile access is a visible, specified operation
//! and a simulated block can stand in for the real peripheral.

pub mod busy_loop;
pub mod gpio;
pub mod pins;
pub mod serial;
pub mod boot;
