//! What can go wrong between a sensor and its consumer.

use vstd::prelude::*;

verus! {

/// A failure of the sensor subsystem.
#[derive(Debug)]
pub enum SensorError {
    /// Discovery went through every candidate and none could be opened.
    NotFound,
    /// A device was found but the connection to it failed.
    ConnectionFailed(String),
    /// One read cycle failed; the next one may succeed.
    ReadError(String),
    /// The device went away.
    Disconnected,
    /// The host's HID facility could not be brought up.
    InitializationFailed(String),
}

impl SensorError {
    /// The text of [`SensorError::message`].
    pub open spec fn spec_message(self) -> Seq<char> {
        match self {
            SensorError::NotFound => "No compatible sensor found"@,
            SensorError::ConnectionFailed(detail) => "Failed to connect to sensor: "@ + detail@,
            SensorError::ReadError(detail) => "Failed to read from sensor: "@ + detail@,
            SensorError::Disconnected => "Sensor disconnected"@,
            SensorError::InitializationFailed(detail) => "Failed to initialize sensor: "@
                + detail@,
        }
    }

    /// A one-line description of the failure for a human reader.
    pub fn message(&self) -> (text: String)
        ensures
            text@ == self.spec_message(),
    {
        match self {
            SensorError::NotFound => String::from_str("No compatible sensor found"),
            SensorError::ConnectionFailed(detail) => String::from_str(
                "Failed to connect to sensor: ",
            ).concat(detail.as_str()),
            SensorError::ReadError(detail) => String::from_str(
                "Failed to read from sensor: ",
            ).concat(detail.as_str()),
            SensorError::Disconnected => String::from_str("Sensor disconnected"),
            SensorError::InitializationFailed(detail) => String::from_str(
                "Failed to initialize sensor: ",
            ).concat(detail.as_str()),
        }
    }
}

} // verus!
