//! The decisions of the Android wrappers: how the failures of the platform
//! map to kinds of error, and what the wrappers make of what the platform
//! reports.

use crate::error::{Error, ErrorKind, ErrorModel};
use vstd::prelude::*;

pub mod adapter;
pub mod characteristic;
pub mod device;
pub mod service;

verus! {

/// A platform-specific device identifier. On Android it holds the
/// Bluetooth address in the format `AB:CD:EF:01:23:45`.
#[derive(Debug, Clone, PartialEq, Eq, PartialOrd, Ord, Hash)]
pub struct DeviceId(pub(crate) String);

impl View for DeviceId {
    type V = Seq<char>;

    closed spec fn view(&self) -> Seq<char> {
        self.0@
    }
}

impl DeviceId {
    /// The identifier of the device with the address `address`.
    pub fn new(address: String) -> (id: DeviceId)
        ensures
            id@ == address@,
    {
        DeviceId(address)
    }

    /// The address, as text.
    pub fn as_str(&self) -> (address: &str)
        ensures
            address@ == self@,
    {
        self.0.as_str()
    }

    /// The address, as it is displayed.
    pub fn to_string(&self) -> (address: String)
        ensures
            address@ == self@,
    {
        self.0.clone()
    }
}

/// A status that the Bluetooth stack reports for a request.
#[derive(Clone, Copy, Debug, PartialEq, Eq, Hash, Structural)]
pub enum BluetoothStatusCode {
    NotAllowed,
    GattWriteNotAllowed,
    NotBonded,
    GattWriteBusy,
    ProfileServiceNotBound,
    FeatureNotSupported,
    FeatureNotConfigured,
    Unknown,
    UnknownError,
    NotEnabled,
    MissingBluetoothConnectPermission,
}

/// A failure of a GATT operation.
#[derive(Clone, Copy, Debug, PartialEq, Eq, Hash, Structural)]
pub enum GattError {
    GattReadNotPermitted,
    GattWriteNotPermitted,
    GattInsufficientAuthentication,
    GattInsufficientEncryption,
    GattInsufficientAuthorization,
    GattRequestNotSupported,
    GattInvalidOffset,
    GattInvalidAttributeLength,
    GattConnectionCongested,
    GattConnectionTimeout,
    GattFailure,
    BluetoothStatusCode(BluetoothStatusCode),
    UnknownError,
    JavaError,
    WritingToCCCDescriptor,
    NotExecuted,
    NotConnected,
}

/// A failure to scan.
#[derive(Clone, Copy, Debug, PartialEq, Eq, Hash, Structural)]
pub enum ScanError {
    AlreadyStarted,
    FeatureUnsupported,
    ApplicationRegistration,
    InternalError,
    OutOfHardwareResources,
    ScanningTooFrequently,
    Unavailable,
    Unknown,
}

/// A failure to pair.
#[derive(Clone, Copy, Debug, PartialEq, Eq, Hash, Structural)]
pub enum PairingError {
    PairingError,
    NotConnected,
    JavaError,
    Unknown,
}

impl BluetoothStatusCode {
    /// The kind of error that the status stands for.
    pub open spec fn spec_kind(self) -> ErrorKind {
        match self {
            BluetoothStatusCode::NotAllowed => ErrorKind::NotAuthorized,
            BluetoothStatusCode::GattWriteNotAllowed => ErrorKind::NotAuthorized,
            BluetoothStatusCode::NotBonded => ErrorKind::NotSupported,
            BluetoothStatusCode::GattWriteBusy => ErrorKind::Timeout,
            BluetoothStatusCode::ProfileServiceNotBound => ErrorKind::Other,
            BluetoothStatusCode::FeatureNotSupported => ErrorKind::Other,
            BluetoothStatusCode::FeatureNotConfigured => ErrorKind::Other,
            BluetoothStatusCode::Unknown => ErrorKind::Internal,
            BluetoothStatusCode::UnknownError => ErrorKind::Internal,
            BluetoothStatusCode::NotEnabled => ErrorKind::AdapterUnavailable,
            BluetoothStatusCode::MissingBluetoothConnectPermission => ErrorKind::AdapterUnavailable,
        }
    }

    /// The kind of error that the status stands for.
    #[verifier::when_used_as_spec(spec_kind)]
    pub fn kind(self) -> (kind: ErrorKind)
        ensures
            kind == self.spec_kind(),
    {
        match self {
            BluetoothStatusCode::NotAllowed | BluetoothStatusCode::GattWriteNotAllowed => {
                ErrorKind::NotAuthorized
            },
            BluetoothStatusCode::NotBonded => ErrorKind::NotSupported,
            BluetoothStatusCode::GattWriteBusy => ErrorKind::Timeout,
            BluetoothStatusCode::ProfileServiceNotBound
            | BluetoothStatusCode::FeatureNotSupported
            | BluetoothStatusCode::FeatureNotConfigured => ErrorKind::Other,
            BluetoothStatusCode::Unknown | BluetoothStatusCode::UnknownError => ErrorKind::Internal,
            BluetoothStatusCode::NotEnabled
            | BluetoothStatusCode::MissingBluetoothConnectPermission => {
                ErrorKind::AdapterUnavailable
            },
        }
    }
}

impl GattError {
    /// The kind of error that the failure stands for.
    pub open spec fn spec_kind(self) -> ErrorKind {
        match self {
            GattError::GattReadNotPermitted => ErrorKind::NotAuthorized,
            GattError::GattWriteNotPermitted => ErrorKind::NotAuthorized,
            GattError::GattInsufficientAuthentication => ErrorKind::NotAuthorized,
            GattError::GattInsufficientEncryption => ErrorKind::NotAuthorized,
            GattError::GattInsufficientAuthorization => ErrorKind::NotAuthorized,
            GattError::GattRequestNotSupported => ErrorKind::NotSupported,
            GattError::GattInvalidOffset => ErrorKind::InvalidParameter,
            GattError::GattInvalidAttributeLength => ErrorKind::InvalidParameter,
            GattError::GattConnectionCongested => ErrorKind::Timeout,
            GattError::GattConnectionTimeout => ErrorKind::Timeout,
            GattError::GattFailure => ErrorKind::Other,
            GattError::BluetoothStatusCode(status) => status.spec_kind(),
            GattError::UnknownError => ErrorKind::Internal,
            GattError::JavaError => ErrorKind::Internal,
            GattError::WritingToCCCDescriptor => ErrorKind::Internal,
            GattError::NotExecuted => ErrorKind::Internal,
            GattError::NotConnected => ErrorKind::NotConnected,
        }
    }

    /// The kind of error that the failure stands for.
    #[verifier::when_used_as_spec(spec_kind)]
    pub fn kind(self) -> (kind: ErrorKind)
        ensures
            kind == self.spec_kind(),
    {
        match self {
            GattError::GattReadNotPermitted
            | GattError::GattWriteNotPermitted
            | GattError::GattInsufficientAuthentication
            | GattError::GattInsufficientEncryption
            | GattError::GattInsufficientAuthorization => ErrorKind::NotAuthorized,
            GattError::GattRequestNotSupported => ErrorKind::NotSupported,
            GattError::GattInvalidOffset | GattError::GattInvalidAttributeLength => {
                ErrorKind::InvalidParameter
            },
            GattError::GattConnectionCongested | GattError::GattConnectionTimeout => {
                ErrorKind::Timeout
            },
            GattError::GattFailure => ErrorKind::Other,
            GattError::BluetoothStatusCode(status) => status.kind(),
            GattError::UnknownError
            | GattError::JavaError
            | GattError::WritingToCCCDescriptor
            | GattError::NotExecuted => ErrorKind::Internal,
            GattError::NotConnected => ErrorKind::NotConnected,
        }
    }
}

impl ScanError {
    /// The kind of error that the failure stands for.
    pub open spec fn spec_kind(self) -> ErrorKind {
        match self {
            ScanError::AlreadyStarted => ErrorKind::AlreadyScanning,
            ScanError::FeatureUnsupported => ErrorKind::NotSupported,
            ScanError::ApplicationRegistration => ErrorKind::Internal,
            ScanError::InternalError => ErrorKind::Internal,
            ScanError::OutOfHardwareResources => ErrorKind::NotReady,
            ScanError::ScanningTooFrequently => ErrorKind::Timeout,
            ScanError::Unavailable => ErrorKind::AdapterUnavailable,
            ScanError::Unknown => ErrorKind::Other,
        }
    }

    /// The kind of error that the failure stands for.
    #[verifier::when_used_as_spec(spec_kind)]
    pub fn kind(self) -> (kind: ErrorKind)
        ensures
            kind == self.spec_kind(),
    {
        match self {
            ScanError::AlreadyStarted => ErrorKind::AlreadyScanning,
            ScanError::FeatureUnsupported => ErrorKind::NotSupported,
            ScanError::ApplicationRegistration | ScanError::InternalError => ErrorKind::Internal,
            ScanError::OutOfHardwareResources => ErrorKind::NotReady,
            ScanError::ScanningTooFrequently => ErrorKind::Timeout,
            ScanError::Unavailable => ErrorKind::AdapterUnavailable,
            ScanError::Unknown => ErrorKind::Other,
        }
    }
}

impl PairingError {
    /// The kind of error that the failure stands for.
    pub open spec fn spec_kind(self) -> ErrorKind {
        match self {
            PairingError::PairingError => ErrorKind::ConnectionFailed,
            PairingError::NotConnected => ErrorKind::NotConnected,
            PairingError::JavaError => ErrorKind::Other,
            PairingError::Unknown => ErrorKind::Other,
        }
    }

    /// The kind of error that the failure stands for.
    #[verifier::when_used_as_spec(spec_kind)]
    pub fn kind(self) -> (kind: ErrorKind)
        ensures
            kind == self.spec_kind(),
    {
        match self {
            PairingError::PairingError => ErrorKind::ConnectionFailed,
            PairingError::NotConnected => ErrorKind::NotConnected,
            PairingError::JavaError | PairingError::Unknown => ErrorKind::Other,
        }
    }
}

/// The error for a failed GATT operation, with the text that the platform
/// gives for it.
pub fn error_from_gatt(err: GattError, message: String) -> (error: Error)
    ensures
        error@ == (ErrorModel { kind: err.spec_kind(), message: message@ }),
{
    Error::new(err.kind(), message)
}

/// The error for an exception thrown on the Java side, with the text that
/// describes it. It is always an internal failure.
pub fn error_from_java(message: String) -> (error: Error)
    ensures
        error@ == (ErrorModel { kind: ErrorKind::Internal, message: message@ }),
{
    Error::new(ErrorKind::Internal, message)
}

/// The error for a failed scan, with the text that the platform gives for
/// it.
pub fn error_from_scan(err: ScanError, message: String) -> (error: Error)
    ensures
        error@ == (ErrorModel { kind: err.spec_kind(), message: message@ }),
{
    Error::new(err.kind(), message)
}

/// The error for a failed pairing, with the text that the platform gives
/// for it.
pub fn error_from_pairing(err: PairingError, message: String) -> (error: Error)
    ensures
        error@ == (ErrorModel { kind: err.spec_kind(), message: message@ }),
{
    Error::new(err.kind(), message)
}

} // verus!
