//! The decisions of the adapter wrapper: which scan results count, what is
//! made of them, and which connected devices match.

use crate::select::{any_wanted, offers_any, positions};
use crate::uuid::Uuid;
use vstd::prelude::*;

verus! {

/// The discoverability flags of an advertisement.
#[derive(Clone, Copy, Debug, PartialEq, Eq, Hash, Structural)]
pub struct AdvertisingFlags {
    pub le_discoverable: bool,
    pub general_discoverable: bool,
}

/// Whether a scan result is that of a device that advertises itself: scans
/// show devices that cannot be discovered too, and those are left out. A
/// result without flags is left out.
pub fn check_advertising(advertising_flags: Option<AdvertisingFlags>) -> (advertising: bool)
    ensures
        advertising == (advertising_flags matches Some(flags) && (flags.le_discoverable
            || flags.general_discoverable)),
{
    match advertising_flags {
        Some(flags) => flags.le_discoverable || flags.general_discoverable,
        None => false,
    }
}

/// A service identifier to scan for, with a mask of the bits that count.
#[derive(Clone, Copy, Debug, PartialEq, Eq, Hash, Structural)]
pub struct ServiceUuid {
    pub uuid: Uuid,
    pub mask: Option<Uuid>,
}

/// A filter on scan results.
#[derive(Clone, Copy, Debug, PartialEq, Eq, Hash, Structural)]
pub struct ScanFilter {
    pub service_uuid: Option<ServiceUuid>,
}

/// The filter that lets through the advertisements of one service.
pub open spec fn filter_for(service: Uuid) -> ScanFilter {
    ScanFilter { service_uuid: Some(ServiceUuid { uuid: service, mask: None }) }
}

/// One filter for each service, each on the full identifier.
pub fn get_filters(services: &Vec<Uuid>) -> (filters: Vec<ScanFilter>)
    ensures
        filters@ == services@.map_values(|service: Uuid| filter_for(service)),
{
    let mut filters: Vec<ScanFilter> = Vec::new();
    let mut i: usize = 0;
    while i < services.len()
        invariant
            i <= services.len(),
            filters@ == services@.take(i as int).map_values(|service: Uuid| filter_for(service)),
        decreases services.len() - i,
    {
        filters.push(
            ScanFilter { service_uuid: Some(ServiceUuid { uuid: services[i], mask: None }) },
        );
        i = i + 1;
        proof {
            assert(filters@ =~= services@.take(i as int).map_values(
                |service: Uuid| filter_for(service),
            ));
        }
    }
    proof {
        assert(services@.take(i as int) =~= services@);
    }
    filters
}

/// The state of the connection to a device.
#[derive(Clone, Copy, Debug, PartialEq, Eq, Hash, Structural)]
pub enum ConnectionState {
    Connected,
    Disconnected,
    Connecting,
    Disconnecting,
}

/// What a caller is told of the connection to a device.
#[derive(Clone, Copy, Debug, PartialEq, Eq, Hash, Structural)]
pub enum ConnectionEvent {
    Connected,
    Disconnected,
}

/// What is done with one item of a stream of results.
#[derive(Clone, Copy, Debug, PartialEq, Eq, Hash, Structural)]
pub enum StreamItem<T> {
    /// The stream ends here.
    Stop,
    /// The item is left out.
    Skip,
    /// The item is handed on, as this.
    Yield(T),
}

/// What a caller is told of one report on the connection to a device, which
/// is `None` where the report failed: the stream ends with the first report
/// that failed, and the states in between connected and disconnected are
/// left out.
pub fn device_connection_event(report: Option<ConnectionState>) -> (item: StreamItem<
    ConnectionEvent,
>)
    ensures
        item == match report {
            None => StreamItem::<ConnectionEvent>::Stop,
            Some(ConnectionState::Connected) => StreamItem::Yield(ConnectionEvent::Connected),
            Some(ConnectionState::Disconnected) => StreamItem::Yield(ConnectionEvent::Disconnected),
            Some(_) => StreamItem::Skip,
        },
{
    match report {
        None => StreamItem::Stop,
        Some(ConnectionState::Connected) => StreamItem::Yield(ConnectionEvent::Connected),
        Some(ConnectionState::Disconnected) => StreamItem::Yield(ConnectionEvent::Disconnected),
        Some(ConnectionState::Disconnecting) | Some(ConnectionState::Connecting) => {
            StreamItem::Skip
        },
    }
}

/// What a scan does with one of its results, given whether the result is
/// one and the flags it carries: the scan ends with the first failure, and
/// results of devices that do not advertise are left out.
pub fn scan_item(ok: bool, advertising_flags: Option<AdvertisingFlags>) -> (item: StreamItem<()>)
    ensures
        item == if !ok {
            StreamItem::<()>::Stop
        } else if advertising_flags matches Some(flags) && (flags.le_discoverable
            || flags.general_discoverable) {
            StreamItem::Yield(())
        } else {
            StreamItem::Skip
        },
{
    if !ok {
        StreamItem::Stop
    } else if check_advertising(advertising_flags) {
        StreamItem::Yield(())
    } else {
        StreamItem::Skip
    }
}

/// What the discovery of devices does with one scan result: a failure is
/// handed on as a failure and the discovery goes on; results of devices
/// that do not advertise are left out.
pub fn discovery_item(ok: bool, advertising_flags: Option<AdvertisingFlags>) -> (item: StreamItem<
    bool,
>)
    ensures
        item == if !ok {
            StreamItem::Yield(false)
        } else if advertising_flags matches Some(flags) && (flags.le_discoverable
            || flags.general_discoverable) {
            StreamItem::Yield(true)
        } else {
            StreamItem::Skip
        },
{
    if !ok {
        StreamItem::Yield(false)
    } else if check_advertising(advertising_flags) {
        StreamItem::Yield(true)
    } else {
        StreamItem::Skip
    }
}

/// The manufacturer-specific data of an advertisement.
#[derive(Clone, Debug, PartialEq, Eq)]
pub struct ManufacturerData {
    pub company_id: u16,
    pub data: Vec<u8>,
}

/// The manufacturer data of a scan result, out of the entries that the
/// platform lists, each a company and its data. There is at most one entry,
/// and its company is a 16-bit identifier.
pub fn manufacturer_data(entries: Vec<(i32, Vec<u8>)>) -> (data: Option<ManufacturerData>)
    requires
        entries.len() <= 1,
        entries.len() == 1 ==> 0 <= entries@[0].0 <= u16::MAX,
    ensures
        data is Some == (entries.len() == 1),
        data matches Some(d) ==> d.company_id == entries@[0].0 && d.data@ == entries@[0].1@,
{
    let mut entries = entries;
    match entries.pop() {
        Some((company_id, data)) => Some(
            ManufacturerData { company_id: company_id as u16, data },
        ),
        None => None,
    }
}

/// Whether the device at each position offers a wanted service.
pub open spec fn offering(device_services: Seq<Vec<Uuid>>, services: Seq<Uuid>) -> Seq<bool> {
    Seq::new(device_services.len(), |i: int| offers_any(device_services[i]@, services))
}

/// The positions of the connected devices, each given by the identifiers
/// of its cached services, that offer any service of `services`, in the
/// order in which the devices are listed. `services` may not be empty.
pub fn connected_devices_with_services(
    device_services: &Vec<Vec<Uuid>>,
    services: &Vec<Uuid>,
) -> (found: Vec<usize>)
    requires
        services.len() > 0,
    ensures
        found@ == positions(offering(device_services@, services@)),
{
    let mut found: Vec<usize> = Vec::new();
    let mut i: usize = 0;
    while i < device_services.len()
        invariant
            i <= device_services.len(),
            found@ == positions(offering(device_services@, services@).take(i as int)),
        decreases device_services.len() - i,
    {
        proof {
            let all = offering(device_services@, services@);
            assert(all.take(i + 1).drop_last() =~= all.take(i as int));
            assert(all.take(i + 1).last() == offers_any(device_services@[i as int]@, services@));
        }
        if any_wanted(&device_services[i], services) {
            found.push(i);
        }
        i = i + 1;
    }
    proof {
        let all = offering(device_services@, services@);
        assert(all.take(i as int) =~= all);
    }
    found
}

} // verus!
