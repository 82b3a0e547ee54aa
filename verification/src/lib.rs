//! The reset and clock control unit and the GPIO banks of an STM32F30x
//! microcontroller, as values.
//!
//! Nothing here touches the hardware. A register is an image of its bits,
//! held by the proxy that stands for exclusive access to it, and a change of
//! configuration computes the new image from the old one. Where the order of
//! the writes matters, the writes themselves are handed out in order: by the
//! bus gates as a list, by the clock configuration one step at a time. The
//! caller reads the registers into the images and carries the writes out.
//!
//! - [`tree`]: the frequencies that result from the requested ones.
//! - [`rcc`]: the bus gates, the clock configuration and its freezing.
//! - [`commit`]: the order in which a frozen configuration is written.
//! - [`flash`]: the wait states of the flash memory.
//! - [`gpio`]: banks, pins and their modes.
//! - [`field`]: the bit fields of a register image.
//! - [`time`]: frequencies.

pub mod commit;
mod convert;
pub mod field;
pub mod flash;
pub mod gpio;
pub mod rcc;
pub mod time;
pub mod tree;
