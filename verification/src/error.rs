use vstd::prelude::*;

verus! {

/// Every way a sensor operation can fail, each variant carrying a
/// human-readable message.
///
/// - `FailedRead`: the captured frame failed checksum validation, or a
///   bounded-retry read exhausted all of its attempts.
/// - `FailedInit`: the GPIO pin could not be acquired or configured.
/// - `Timeout`: one pulse half (low or high) exceeded the maximum busy-wait
///   iteration bound during capture.
#[derive(Debug)]
pub enum SensorError {
    FailedRead(String),
    FailedInit(String),
    Timeout(String),
}

impl SensorError {
    /// The full display text of this error: a prefix naming the failure
    /// kind, followed by the carried message.
    pub fn describe(&self) -> (s: String)
        ensures
            (match self {
                SensorError::FailedRead(m) => s@ == "Failed to Read Sensor: "@ + m@,
                SensorError::FailedInit(m) => s@ == "Failed to Initialize Sensor: "@ + m@,
                SensorError::Timeout(m) => s@ == "Sensor Timed Out: "@ + m@,
            }),
    {
        match self {
            SensorError::FailedRead(m) => {
                String::from_str("Failed to Read Sensor: ").concat(m.as_str())
            },
            SensorError::FailedInit(m) => {
                String::from_str("Failed to Initialize Sensor: ").concat(m.as_str())
            },
            SensorError::Timeout(m) => {
                String::from_str("Sensor Timed Out: ").concat(m.as_str())
            },
        }
    }
}

} // verus!
