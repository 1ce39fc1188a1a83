//! The decisions of the BlueZ channel wrapper: what security a channel
//! asks for, and what becomes of a failure to create one.

use crate::error::{Error, ErrorKind, ErrorModel};
use vstd::prelude::*;

verus! {

/// The key size that a secure channel asks for.
pub const SECURE_CHANNEL_KEY_SIZE: u8 = 16;

/// The security level of an L2CAP socket.
#[derive(Clone, Copy, Debug, PartialEq, Eq, Hash, Structural)]
pub enum SecurityLevel {
    Sdp,
    Low,
    Medium,
    High,
    Fips,
}

/// The security of an L2CAP socket.
#[derive(Clone, Copy, Debug, PartialEq, Eq, Hash, Structural)]
pub struct Security {
    pub level: SecurityLevel,
    pub key_size: u8,
}

/// Why a channel could not be created.
#[derive(Clone, Copy, Debug, PartialEq, Eq, Hash, Structural)]
pub enum ChannelCreationError {
    /// The security level of the connection could not be set.
    SetSecurityError,
    /// The connection could not be made.
    ConnectionError,
}

impl ChannelCreationError {
    /// The kind of error that the failure stands for.
    pub open spec fn spec_kind(self) -> ErrorKind {
        match self {
            ChannelCreationError::SetSecurityError => ErrorKind::Internal,
            ChannelCreationError::ConnectionError => ErrorKind::ConnectionFailed,
        }
    }

    /// The kind of error that the failure stands for.
    #[verifier::when_used_as_spec(spec_kind)]
    pub fn kind(self) -> (kind: ErrorKind)
        ensures
            kind == self.spec_kind(),
    {
        match self {
            ChannelCreationError::SetSecurityError => ErrorKind::Internal,
            ChannelCreationError::ConnectionError => ErrorKind::ConnectionFailed,
        }
    }

    /// The text of `message`.
    pub open spec fn spec_message(self) -> Seq<char> {
        match self {
            ChannelCreationError::SetSecurityError => "Error setting connection security level."@,
            ChannelCreationError::ConnectionError => "Error connecting to l2cap stream."@,
        }
    }

    /// A sentence that describes the failure.
    pub fn message(self) -> (text: String)
        ensures
            text@ == self.spec_message(),
    {
        match self {
            ChannelCreationError::SetSecurityError => {
                "Error setting connection security level.".to_owned()
            },
            ChannelCreationError::ConnectionError => "Error connecting to l2cap stream.".to_owned(),
        }
    }

    /// The error that a caller gets for the failure.
    pub fn into_error(self) -> (error: Error)
        ensures
            error@ == (ErrorModel { kind: self.spec_kind(), message: self.spec_message() }),
    {
        Error::new(self.kind(), self.message())
    }
}

/// What is to be done once the attempt to connect has returned: nothing
/// more for a plain channel, the security to set for a secure one, and the
/// failure where the connection was not made.
pub fn after_connect(connected: bool, secure: bool) -> (next: Result<
    Option<Security>,
    ChannelCreationError,
>)
    ensures
        next == if !connected {
            Err::<Option<Security>, ChannelCreationError>(ChannelCreationError::ConnectionError)
        } else if secure {
            Ok(Some(Security { level: SecurityLevel::High, key_size: SECURE_CHANNEL_KEY_SIZE }))
        } else {
            Ok(None)
        },
{
    if !connected {
        Err(ChannelCreationError::ConnectionError)
    } else if secure {
        Ok(Some(Security { level: SecurityLevel::High, key_size: SECURE_CHANNEL_KEY_SIZE }))
    } else {
        Ok(None)
    }
}

/// What becomes of the channel once the security was asked for: it stands
/// where the security was set, and fails where it was not.
pub fn after_security(set: bool) -> (done: Result<(), ChannelCreationError>)
    ensures
        done == if set {
            Ok::<(), ChannelCreationError>(())
        } else {
            Err(ChannelCreationError::SetSecurityError)
        },
{
    if set {
        Ok(())
    } else {
        Err(ChannelCreationError::SetSecurityError)
    }
}

} // verus!
