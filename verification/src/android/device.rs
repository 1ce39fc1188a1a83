//! The decisions of the device wrapper.

use crate::android::adapter::ConnectionState;
use crate::android::service::Service;
use crate::error::{Error, ErrorKind, ErrorModel};
use crate::select::{hits, matching_uuid, positions};
use crate::uuid::Uuid;
use vstd::prelude::*;

verus! {

/// The name of a device, where the platform knows one. Where it knows
/// none, the failure is that the name was not found.
pub fn name(reported: Option<String>) -> (name: Result<String, Error>)
    ensures
        reported matches Some(n) ==> name == Ok::<String, Error>(n),
        reported is None ==> name is Err && name->Err_0@ == (ErrorModel {
            kind: ErrorKind::NotFound,
            message: "Device Name Unavailable"@,
        }),
{
    match reported {
        Some(n) => Ok(n),
        None => Err(Error::new(ErrorKind::NotFound, "Device Name Unavailable".to_owned())),
    }
}

/// Whether a device can be used: its client connection has to be up. A
/// device that is connected to the system only still has to be connected
/// to.
pub fn is_connected(client_state: ConnectionState) -> (connected: bool)
    ensures
        connected == (client_state is Connected),
{
    match client_state {
        ConnectionState::Connected => true,
        _ => false,
    }
}

/// Whether the services of a device have to be discovered: the cached ones
/// are used unless there are none.
pub fn needs_discovery(cached_services: usize) -> (discover: bool)
    ensures
        discover == (cached_services == 0),
{
    cached_services == 0
}

/// The positions of the services, given by their identifiers, that have
/// the identifier `uuid`.
pub fn discover_services_with_uuid(services: &Vec<Uuid>, uuid: Uuid) -> (found: Vec<usize>)
    ensures
        found@ == positions(hits(services@, uuid)),
{
    matching_uuid(services, uuid)
}

/// The signal strength of a device in the width that callers get it in.
/// The platform reports a value that fits.
pub fn rssi(reported: i32) -> (rssi: i16)
    requires
        i16::MIN <= reported <= i16::MAX,
    ensures
        rssi == reported,
{
    reported as i16
}

/// A notice that the services of a device have changed.
#[derive(Debug, Clone, Copy, PartialEq, Eq, Hash, Structural)]
pub struct ServicesChangedImpl;

impl ServicesChangedImpl {
    /// Whether `service` was invalidated by the change. The platform does
    /// not say which services a change concerns, so every service counts
    /// as invalidated.
    pub fn was_invalidated(&self, _service: &Service) -> (invalidated: bool)
        ensures
            invalidated,
    {
        true
    }
}

} // verus!
