use vstd::prelude::*;

verus! {

/// Errors raised by the protocol core and the BLE client around it.
///
/// The Bluetooth stack's own error is carried as its rendered message, so
/// the type stays a plain value the whole library can reason about.
#[derive(Debug, Clone, PartialEq, Eq)]
pub enum CoreError {
    AdapterNotFound,
    InvalidPacket(String),
    BluetoothError(String),
    DeviceNotFound,
    ServiceNotFound,
    CharacteristicNotFound(String),
    ConnectionDropped,
    /// No persistent session is open, and the caller must not open one.
    NotConnected,
    /// A call into the platform BLE stack exceeded its budget; carries the
    /// operation label.
    OperationTimeout(&'static str),
    /// A command carries more parameter bytes than the frame's one-byte
    /// body length can express.
    FrameTooLarge(usize),
    /// The requested device name was empty once trimmed and stripped of
    /// control characters.
    InvalidName,
}

/// `true` for the errors that mean the BLE link itself can no longer be
/// trusted.
pub open spec fn is_transport_error(e: CoreError) -> bool {
    match e {
        CoreError::AdapterNotFound => true,
        CoreError::BluetoothError(_) => true,
        CoreError::DeviceNotFound => true,
        CoreError::ServiceNotFound => true,
        CoreError::ConnectionDropped => true,
        CoreError::NotConnected => true,
        CoreError::OperationTimeout(_) => true,
        _ => false,
    }
}

impl CoreError {
    /// `true` when the BLE link itself can no longer be trusted, so a
    /// persistent session must be torn down and rebuilt. Validation,
    /// parsing, and missing-characteristic errors are not.
    pub fn is_transport(&self) -> (r: bool)
        ensures
            r == is_transport_error(*self),
    {
        match self {
            CoreError::AdapterNotFound => true,
            CoreError::BluetoothError(_) => true,
            CoreError::DeviceNotFound => true,
            CoreError::ServiceNotFound => true,
            CoreError::ConnectionDropped => true,
            CoreError::NotConnected => true,
            CoreError::OperationTimeout(_) => true,
            _ => false,
        }
    }
}

} // verus!
