//! Driver core for a single-wire digital temperature/humidity sensor.
//!
//! The sensor answers a host-driven handshake with 41 alternating low/high
//! voltage pulses on one GPIO line. The pulse durations are measured by
//! busy-wait iteration counting, binarized against a derived threshold,
//! assembled into a 5-byte frame, validated against an embedded checksum and
//! finally turned into a temperature/humidity reading.
//!
//! This crate holds the verified protocol logic: the pulse-capture state
//! machine ([`capture`]), the frame decoder ([`decode`]) and the
//! bounded-retry policy ([`retry`]). The GPIO line itself, the millisecond
//! sleeps of the handshake and the polling loop that feeds line levels into
//! the state machine live outside the library; they exchange only plain
//! values (line levels, counters, readings, errors) with the code here.

use vstd::prelude::*;

pub mod capture;
pub mod decode;
pub mod error;
pub mod retry;

use crate::error::SensorError;

verus! {

/// A driver instance for one sensor. It records which GPIO line the sensor
/// is wired to; the line itself is owned and operated by the caller.
pub struct DHT11 {
    pin: u8,
}

impl DHT11 {
    /// The number of the GPIO line this driver was created for.
    pub closed spec fn pin_id(self) -> u8 {
        self.pin
    }

    /// Returns the GPIO line number, so the caller can acquire the line.
    pub fn pin_number(&self) -> (p: u8)
        ensures
            p == self.pin_id(),
    {
        self.pin
    }
}

/// Creates a driver for the sensor wired to GPIO line `pin`.
///
/// Acquiring the physical line happens at the caller's side; when that
/// acquisition fails, the caller reports `SensorError::FailedInit` and
/// discards the driver.
pub fn create(pin: u8) -> (r: Result<DHT11, SensorError>)
    ensures
        r matches Ok(d) && d.pin_id() == pin,
{
    Ok(DHT11 { pin })
}

} // verus!
