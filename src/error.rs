use vstd::prelude::*;

verus! {

/// Errors that the control plane reports to its callers.
#[derive(Debug, Clone, PartialEq, Eq)]
pub enum MidiError {
    /// The named device has no live connection.
    NotConnected(String),
    /// A byte lies outside a parameter's legal discrete set.
    InvalidValue { expected: String, actual: u8 },
    /// A transport-level failure.
    CommunicationError(String),
    /// No port name matches the requested device.
    DeviceNotFound(String),
    /// Opening the port failed.
    ConnectionFailed(String),
    /// Transmitting a message failed.
    SendFailed(String),
    /// The port layer reported an error.
    PortError(String),
    /// The device name is already registered.
    AlreadyConnected(String),
    /// The MIDI channel lies outside 1..=16.
    InvalidChannel(u8),
    /// Any other failure, such as a profile mismatch.
    Other(String),
}

impl MidiError {
    /// The error is `InvalidValue` for the byte `actual`, and says the legal
    /// values are `expected`.
    pub open spec fn is_invalid_value(self, actual: u8, expected: Seq<char>) -> bool {
        match self {
            MidiError::InvalidValue { expected: x, actual: a } => a == actual && x@ == expected,
            _ => false,
        }
    }

    /// The error is `NotConnected` for the device `name`.
    pub open spec fn is_not_connected(self, name: Seq<char>) -> bool {
        match self {
            MidiError::NotConnected(n) => n@ == name,
            _ => false,
        }
    }

    /// The error is `AlreadyConnected` for the device `name`.
    pub open spec fn is_already_connected(self, name: Seq<char>) -> bool {
        match self {
            MidiError::AlreadyConnected(n) => n@ == name,
            _ => false,
        }
    }

    /// The error is `DeviceNotFound` for the device `name`.
    pub open spec fn is_device_not_found(self, name: Seq<char>) -> bool {
        match self {
            MidiError::DeviceNotFound(n) => n@ == name,
            _ => false,
        }
    }

    /// The error is `Other` with the message `text`.
    pub open spec fn is_other(self, text: Seq<char>) -> bool {
        match self {
            MidiError::Other(m) => m@ == text,
            _ => false,
        }
    }
}

/// Result type of the control plane.
pub type MidiResult<T> = Result<T, MidiError>;

} // verus!
