//! The decisions of the characteristic wrapper.

use crate::error::{Error, ErrorKind, ErrorModel};
use crate::uuid::Uuid;
use vstd::prelude::*;

verus! {

/// The bits of the identifier of the client characteristic configuration
/// descriptor, `00002902-0000-1000-8000-00805f9b34fb`.
pub const CCC_DESCRIPTOR: u128 = 0x00002902_0000_1000_8000_00805f9b34fb;

/// The identifier of the descriptor that says whether a characteristic
/// notifies.
pub fn ccc_descriptor() -> (uuid: Uuid)
    ensures
        uuid == Uuid(CCC_DESCRIPTOR),
{
    Uuid(CCC_DESCRIPTOR)
}

/// The properties of a characteristic as the platform reports them.
#[derive(Clone, Copy, Debug, PartialEq, Eq, Hash, Structural)]
pub struct GattProperties {
    pub broadcast: bool,
    pub read: bool,
    pub write_no_response: bool,
    pub write: bool,
    pub notify: bool,
    pub indicate: bool,
    pub signed_write: bool,
    pub extended_props: bool,
}

/// The properties of a characteristic as callers get them.
#[derive(Clone, Copy, Debug, PartialEq, Eq, Hash, Structural)]
pub struct CharacteristicProperties {
    pub broadcast: bool,
    pub read: bool,
    pub write_without_response: bool,
    pub write: bool,
    pub notify: bool,
    pub indicate: bool,
    pub authenticated_signed_writes: bool,
    pub extended_properties: bool,
    pub reliable_write: bool,
    pub writable_auxiliaries: bool,
}

impl From<GattProperties> for CharacteristicProperties {
    /// Each property as the platform reports it. Reliable writes and
    /// writable auxiliaries are never reported, so they are never set.
    fn from(properties: GattProperties) -> (converted: CharacteristicProperties) {
        CharacteristicProperties {
            broadcast: properties.broadcast,
            read: properties.read,
            write_without_response: properties.write_no_response,
            write: properties.write,
            notify: properties.notify,
            indicate: properties.indicate,
            authenticated_signed_writes: properties.signed_write,
            extended_properties: properties.extended_props,
            reliable_write: false,
            writable_auxiliaries: false,
        }
    }
}

impl vstd::std_specs::convert::FromSpecImpl<GattProperties> for CharacteristicProperties {
    open spec fn obeys_from_spec() -> bool {
        true
    }

    open spec fn from_spec(properties: GattProperties) -> CharacteristicProperties {
        CharacteristicProperties {
            broadcast: properties.broadcast,
            read: properties.read,
            write_without_response: properties.write_no_response,
            write: properties.write,
            notify: properties.notify,
            indicate: properties.indicate,
            authenticated_signed_writes: properties.signed_write,
            extended_properties: properties.extended_props,
            reliable_write: false,
            writable_auxiliaries: false,
        }
    }
}

/// Whether notifications are switched on, read off the two bytes of the
/// client characteristic configuration descriptor: the lowest bit of the
/// first byte says so.
pub fn is_notifying(ccc_descriptor_content: &Vec<u8>) -> (notifying: bool)
    requires
        ccc_descriptor_content.len() == 2,
    ensures
        notifying == (ccc_descriptor_content@[0] & 0x01 != 0),
{
    (ccc_descriptor_content[0] & 0x01) != 0
}

/// The longest value that can be written at once. Android gives no way to
/// learn it.
pub fn max_write_len() -> (len: Result<usize, Error>)
    ensures
        len is Err,
        len->Err_0@ == (ErrorModel { kind: ErrorKind::NotSupported, message: Seq::<char>::empty() }),
{
    Err(Error::from_kind(ErrorKind::NotSupported))
}

/// The value of a characteristic as it was last read, if it was read.
#[derive(Clone, Debug)]
pub struct ValueCache {
    cached: Option<Vec<u8>>,
}

impl View for ValueCache {
    type V = Option<Seq<u8>>;

    closed spec fn view(&self) -> Option<Seq<u8>> {
        match self.cached {
            Some(value) => Some(value@),
            None => None,
        }
    }
}

impl ValueCache {
    /// A cache with no value in it.
    pub fn new() -> (cache: ValueCache)
        ensures
            cache@ is None,
    {
        ValueCache { cached: None }
    }

    /// The cached value. `None` says that the characteristic has to be
    /// read from the device.
    pub fn value(&self) -> (value: Option<Vec<u8>>)
        ensures
            value is Some == self@ is Some,
            value matches Some(v) ==> Some(v@) == self@,
    {
        match &self.cached {
            Some(value) => Some(value.clone()),
            None => None,
        }
    }

    /// Keeps what was read from the device and gives it back for the
    /// caller.
    pub fn read(&mut self, value: Vec<u8>) -> (read: Vec<u8>)
        ensures
            final(self)@ == Some(value@),
            read@ == value@,
    {
        self.cached = Some(value.clone());
        value
    }
}

} // verus!
