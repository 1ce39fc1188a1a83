//! Identifiers of services, characteristics and descriptors.

use vstd::prelude::*;

verus! {

/// A universally unique identifier, as its 128 bits.
#[derive(Clone, Copy, Debug, PartialEq, Eq, PartialOrd, Ord, Hash, Structural)]
pub struct Uuid(pub u128);

impl Uuid {
    /// The identifier with the bits `bits`.
    pub fn from_u128(bits: u128) -> (uuid: Uuid)
        ensures
            uuid == Uuid(bits),
    {
        Uuid(bits)
    }

    /// The bits of the identifier.
    pub fn as_u128(&self) -> (bits: u128)
        ensures
            bits == self.0,
    {
        self.0
    }
}

} // verus!
