//! GATT services as the wrappers see them.

use crate::select::{hits, matching_uuid, positions};
use crate::uuid::Uuid;
use vstd::prelude::*;

verus! {

/// Whether a service is primary or included in another.
#[derive(Clone, Copy, Debug, PartialEq, Eq, Hash, Structural)]
pub enum ServiceType {
    Primary,
    Secondary,
}

/// A GATT service: what identifies it and what type it has.
#[derive(Clone, Copy, Debug, PartialEq, Eq, Hash, Structural)]
pub struct Service {
    pub uuid: Uuid,
    pub service_type: ServiceType,
}

impl Service {
    /// The identifier of the service.
    pub fn uuid(&self) -> (uuid: Uuid)
        ensures
            uuid == self.uuid,
    {
        self.uuid
    }

    /// Whether the service is a primary service.
    pub fn is_primary(&self) -> (primary: bool)
        ensures
            primary == (self.service_type is Primary),
    {
        match self.service_type {
            ServiceType::Primary => true,
            ServiceType::Secondary => false,
        }
    }
}

/// The positions of the characteristics, given by their identifiers, that
/// have the identifier `uuid`.
pub fn discover_characteristics_with_uuid(characteristics: &Vec<Uuid>, uuid: Uuid) -> (found: Vec<
    usize,
>)
    ensures
        found@ == positions(hits(characteristics@, uuid)),
{
    matching_uuid(characteristics, uuid)
}

/// The positions of the included services, given by their identifiers,
/// that have the identifier `uuid`.
pub fn discover_included_services_with_uuid(included: &Vec<Uuid>, uuid: Uuid) -> (found: Vec<
    usize,
>)
    ensures
        found@ == positions(hits(included@, uuid)),
{
    matching_uuid(included, uuid)
}

} // verus!
