//! Capability traits implemented by platform collaborators.
//!
//! The logic in this crate drives hardware only through these narrow
//! interfaces; a platform (or a test) supplies the implementations.

use vstd::prelude::*;

use crate::history::CentiCelsius;

verus! {

/// A temperature sensor.
pub trait TemperatureSensor {
    /// Initialize the sensor.
    fn init(&mut self) -> Result<(), &'static str>;

    /// Read a temperature, in hundredths of a degree Celsius.
    fn read_temperature(&mut self) -> Result<CentiCelsius, &'static str>;
}

/// A text display.
pub trait Display {
    /// Initialize the display.
    fn init(&mut self) -> Result<(), &'static str>;

    /// Clear the display.
    fn clear(&mut self) -> Result<(), &'static str>;

    /// Draw text at the given position.
    fn draw_text(&mut self, text: &str, x: i32, y: i32) -> Result<(), &'static str>;

    /// Draw a straight line between two points.
    fn draw_line(&mut self, x0: i32, y0: i32, x1: i32, y1: i32) -> Result<(), &'static str>;

    /// Flush the drawn buffer to the panel.
    fn update(&mut self) -> Result<(), &'static str>;
}

/// A bus for addressed byte transactions.
pub trait I2cBus {
    /// Write bytes to a device address.
    fn write(&mut self, addr: u8, bytes: &[u8]) -> Result<(), &'static str>;

    /// Write bytes, then read exactly `read_len` bytes, in one transaction.
    fn write_read(&mut self, addr: u8, bytes: &[u8], read_len: usize) -> (r: Result<
        Vec<u8>,
        &'static str,
    >)
        ensures
            r matches Ok(v) ==> v@.len() == read_len,
    ;
}

/// A timer that suspends the calling task for a number of milliseconds.
pub trait DelayTimer {
    /// Pause for `ms` milliseconds.
    fn delay_ms(&mut self, ms: u32);
}

} // verus!
