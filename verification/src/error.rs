//! What can go wrong with a channel.

use vstd::prelude::*;

verus! {

/// A failure of a channel, of its construction or of its use.
#[derive(Clone, Copy, Debug, PartialEq, Eq, Hash, Structural)]
pub enum ChannelError {
    /// A native stream failed to open.
    OpenFailed,
    /// An expected native handle or property is absent or malformed.
    PropertyUnavailable,
    /// Two handles that should name one resource name two.
    ReferenceMismatch,
    /// The resource could not be switched to non-blocking mode.
    NonBlockingModeFailed,
    /// The native framework reported a fault it cannot recover from.
    TerminalNativeError,
    /// The operation is not valid in the state the channel is in, such as a
    /// write after the end of the stream.
    InvalidState,
    /// A task is already waiting on this direction.
    WakerAlreadyRegistered,
    /// The native side gave back a reference it did not hold.
    UnbalancedRelease,
}

impl ChannelError {
    /// Whether the failure can only come out of the construction of a
    /// channel, before its event loop is started.
    pub open spec fn spec_is_construction_failure(self) -> bool {
        self is PropertyUnavailable || self is ReferenceMismatch || self is NonBlockingModeFailed
    }

    /// Whether the failure can only come out of the construction of a
    /// channel, before its event loop is started.
    #[verifier::when_used_as_spec(spec_is_construction_failure)]
    pub fn is_construction_failure(self) -> (early: bool)
        ensures
            early == self.spec_is_construction_failure(),
    {
        match self {
            ChannelError::PropertyUnavailable => true,
            ChannelError::ReferenceMismatch => true,
            ChannelError::NonBlockingModeFailed => true,
            _ => false,
        }
    }

    /// Whether the failure is a misuse by the caller that leaves the channel
    /// as it was.
    pub open spec fn spec_is_usage_fault(self) -> bool {
        self is InvalidState || self is WakerAlreadyRegistered || self is UnbalancedRelease
    }

    /// Whether the failure is a misuse by the caller that leaves the channel
    /// as it was.
    #[verifier::when_used_as_spec(spec_is_usage_fault)]
    pub fn is_usage_fault(self) -> (misuse: bool)
        ensures
            misuse == self.spec_is_usage_fault(),
    {
        match self {
            ChannelError::InvalidState => true,
            ChannelError::WakerAlreadyRegistered => true,
            ChannelError::UnbalancedRelease => true,
            _ => false,
        }
    }

    /// The text of `message`.
    pub open spec fn spec_message(self) -> Seq<char> {
        match self {
            ChannelError::OpenFailed => "native stream failed to open"@,
            ChannelError::PropertyUnavailable => "native handle or property unavailable"@,
            ChannelError::ReferenceMismatch => "stream handles refer to different resources"@,
            ChannelError::NonBlockingModeFailed => "could not switch to non-blocking mode"@,
            ChannelError::TerminalNativeError => "native stream reported a terminal error"@,
            ChannelError::InvalidState => "operation invalid in the current channel state"@,
            ChannelError::WakerAlreadyRegistered => "a task is already waiting on this direction"@,
            ChannelError::UnbalancedRelease => "release of a reference that is not held"@,
        }
    }

    /// A sentence that describes the failure.
    pub fn message(self) -> (text: String)
        ensures
            text@ == self.spec_message(),
    {
        match self {
            ChannelError::OpenFailed => "native stream failed to open".to_owned(),
            ChannelError::PropertyUnavailable => "native handle or property unavailable".to_owned(),
            ChannelError::ReferenceMismatch => {
                "stream handles refer to different resources".to_owned()
            },
            ChannelError::NonBlockingModeFailed => {
                "could not switch to non-blocking mode".to_owned()
            },
            ChannelError::TerminalNativeError => {
                "native stream reported a terminal error".to_owned()
            },
            ChannelError::InvalidState => {
                "operation invalid in the current channel state".to_owned()
            },
            ChannelError::WakerAlreadyRegistered => {
                "a task is already waiting on this direction".to_owned()
            },
            ChannelError::UnbalancedRelease => "release of a reference that is not held".to_owned(),
        }
    }
}

/// The kind of a failure, as the callers of the Bluetooth wrappers tell
/// failures apart.
#[derive(Clone, Copy, Debug, PartialEq, Eq, Hash, Structural)]
pub enum ErrorKind {
    /// The Bluetooth adapter is not available.
    AdapterUnavailable,
    /// The adapter is already scanning.
    AlreadyScanning,
    /// The connection could not be made.
    ConnectionFailed,
    /// An internal failure of the platform.
    Internal,
    /// A parameter was not valid.
    InvalidParameter,
    /// The operation is not permitted.
    NotAuthorized,
    /// The device is not connected.
    NotConnected,
    /// What was asked for is not there.
    NotFound,
    /// The platform is not ready.
    NotReady,
    /// The operation is not supported.
    NotSupported,
    /// The operation timed out.
    Timeout,
    /// Any other failure.
    Other,
}

/// What an `Error` holds, as mathematics.
pub struct ErrorModel {
    pub kind: ErrorKind,
    pub message: Seq<char>,
}

/// A failure of a Bluetooth operation: its kind and a message.
#[derive(Clone, Debug, PartialEq, Eq)]
pub struct Error {
    kind: ErrorKind,
    message: String,
}

impl View for Error {
    type V = ErrorModel;

    closed spec fn view(&self) -> ErrorModel {
        ErrorModel { kind: self.kind, message: self.message@ }
    }
}

impl Error {
    /// A failure of `kind` with `message`.
    pub fn new(kind: ErrorKind, message: String) -> (error: Error)
        ensures
            error@ == (ErrorModel { kind, message: message@ }),
    {
        Error { kind, message }
    }

    /// A failure of `kind` with no message.
    pub fn from_kind(kind: ErrorKind) -> (error: Error)
        ensures
            error@ == (ErrorModel { kind, message: Seq::<char>::empty() }),
    {
        Error { kind, message: String::new() }
    }

    /// The kind of the failure.
    pub fn kind(&self) -> (kind: ErrorKind)
        ensures
            kind == self@.kind,
    {
        self.kind
    }

    /// The message of the failure.
    pub fn message(&self) -> (message: &str)
        ensures
            message@ == self@.message,
    {
        self.message.as_str()
    }
}

} // verus!
