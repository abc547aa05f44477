//! The state machine of one connected peripheral.
//!
//! A `BleDevice` holds what the plugin knows about a peripheral: whether it is
//! connected, the services found by the last discovery with a lookup cache of
//! their characteristics, the characteristics whose notifications scripts
//! subscribed to, and whether a notification dispatcher is running. Each
//! script call is a method that updates this state and says what to do
//! next (`DeviceAction`); each result of background work comes back through
//! an `on_...` method that updates the state and gives the event to report.
use vstd::prelude::*;
use crate::characteristic::{
    discovered_view, records_view, service_info_of, service_infos_view, BleServiceInfo,
    CharacteristicRecord, CharacteristicRecordView, DiscoveredService, DiscoveredServiceView,
    ServiceInfoView, service_dict,
};
use crate::dictionary::{copy_bytes, dicts_view, Dictionary};
use crate::error::BleError;
use crate::string_set::StringSet;
use crate::text::{
    concat2, concat3, eq_ignore_ascii_case, eq_ignore_ascii_case_spec, str_equal, to_lowercase,
    unicode_lowercase,
};
use crate::types::{BleDeviceEvent, DeviceEventView};

verus! {

/// The operation on a characteristic that could not find it.
#[derive(Clone, Copy, Debug, PartialEq, Eq)]
pub enum CharEventKind {
    Read,
    Write,
    Subscribe,
    Unsubscribe,
}

/// One entry of the characteristic cache: the lower-case service and
/// characteristic UUIDs under which the characteristic is found.
#[derive(Debug, PartialEq, Eq)]
pub struct CacheEntry {
    pub service_key: String,
    pub char_key: String,
    pub characteristic: CharacteristicRecord,
}

/// The mathematical form of a cache entry.
pub struct CacheEntryView {
    pub service_key: Seq<char>,
    pub char_key: Seq<char>,
    pub characteristic: CharacteristicRecordView,
}

impl View for CacheEntry {
    type V = CacheEntryView;

    open spec fn view(&self) -> CacheEntryView {
        CacheEntryView {
            service_key: self.service_key@,
            char_key: self.char_key@,
            characteristic: self.characteristic@,
        }
    }
}

/// The views of the cache entries.
pub open spec fn cache_view(v: Seq<CacheEntry>) -> Seq<CacheEntryView> {
    v.map_values(|e: CacheEntry| e@)
}

/// What the plugin knows about one peripheral.
pub struct BleDevice {
    address: String,
    name: String,
    connected: bool,
    services: Vec<BleServiceInfo>,
    subscribed: StringSet,
    dispatcher: bool,
    cache: Vec<CacheEntry>,
}

/// The mathematical form of a device's state.
pub struct DeviceView {
    pub address: Seq<char>,
    pub name: Seq<char>,
    pub connected: bool,
    pub services: Seq<ServiceInfoView>,
    /// Lower-case UUIDs of the characteristics subscribed to.
    pub subscribed: Set<Seq<char>>,
    /// Whether a notification dispatcher has been started and not aborted.
    pub dispatcher: bool,
    pub cache: Seq<CacheEntryView>,
}

impl View for BleDevice {
    type V = DeviceView;

    closed spec fn view(&self) -> DeviceView {
        DeviceView {
            address: self.address@,
            name: self.name@,
            connected: self.connected,
            services: service_infos_view(self.services@),
            subscribed: self.subscribed@,
            dispatcher: self.dispatcher,
            cache: cache_view(self.cache@),
        }
    }
}

/// What to do after a script call on a device.
#[derive(Debug, PartialEq, Eq)]
pub enum DeviceAction {
    /// Nothing.
    Nothing,
    /// Emit the device's `operation_failed` signal.
    OperationFailed { operation: String, error: String },
    /// Report the event through the event channel.
    Report(BleDeviceEvent),
    /// Run service discovery in the background.
    DiscoverServices,
    /// Read the characteristic in the background.
    Read { characteristic: CharacteristicRecord, char_uuid: String },
    /// Write the data to the characteristic in the background.
    Write {
        characteristic: CharacteristicRecord,
        char_uuid: String,
        data: Vec<u8>,
        with_response: bool,
    },
    /// Subscribe to the characteristic's notifications in the background;
    /// `char_key` is the reserved lower-case UUID, released if this fails.
    Subscribe { characteristic: CharacteristicRecord, char_uuid: String, char_key: String },
    /// Unsubscribe from the characteristic's notifications in the background.
    Unsubscribe { characteristic: CharacteristicRecord, char_uuid: String },
}

/// The mathematical form of a device action.
pub enum DeviceActionView {
    Nothing,
    OperationFailed { operation: Seq<char>, error: Seq<char> },
    Report(DeviceEventView),
    DiscoverServices,
    Read { characteristic: CharacteristicRecordView, char_uuid: Seq<char> },
    Write {
        characteristic: CharacteristicRecordView,
        char_uuid: Seq<char>,
        data: Seq<u8>,
        with_response: bool,
    },
    Subscribe {
        characteristic: CharacteristicRecordView,
        char_uuid: Seq<char>,
        char_key: Seq<char>,
    },
    Unsubscribe { characteristic: CharacteristicRecordView, char_uuid: Seq<char> },
}

impl View for DeviceAction {
    type V = DeviceActionView;

    open spec fn view(&self) -> DeviceActionView {
        match self {
            DeviceAction::Nothing => DeviceActionView::Nothing,
            DeviceAction::OperationFailed { operation, error } => DeviceActionView::OperationFailed {
                operation: operation@,
                error: error@,
            },
            DeviceAction::Report(e) => DeviceActionView::Report(e@),
            DeviceAction::DiscoverServices => DeviceActionView::DiscoverServices,
            DeviceAction::Read { characteristic, char_uuid } => DeviceActionView::Read {
                characteristic: characteristic@,
                char_uuid: char_uuid@,
            },
            DeviceAction::Write { characteristic, char_uuid, data, with_response } =>
                DeviceActionView::Write {
                characteristic: characteristic@,
                char_uuid: char_uuid@,
                data: data@,
                with_response: *with_response,
            },
            DeviceAction::Subscribe { characteristic, char_uuid, char_key } =>
                DeviceActionView::Subscribe {
                characteristic: characteristic@,
                char_uuid: char_uuid@,
                char_key: char_key@,
            },
            DeviceAction::Unsubscribe { characteristic, char_uuid } =>
                DeviceActionView::Unsubscribe {
                characteristic: characteristic@,
                char_uuid: char_uuid@,
            },
        }
    }
}

/// What to do after a subscription request: whether to abort the running
/// notification dispatcher, whether to start a new one (with the lower-case
/// UUID that it gives back if its stream cannot be opened), and the action
/// for the subscription itself.
#[derive(Debug, PartialEq, Eq)]
pub struct SubscribePlan {
    pub abort_dispatcher: bool,
    pub start_dispatcher: Option<String>,
    pub action: DeviceAction,
}

/// The mathematical form of a subscription plan.
pub struct SubscribePlanView {
    pub abort_dispatcher: bool,
    pub start_dispatcher: Option<Seq<char>>,
    pub action: DeviceActionView,
}

impl View for SubscribePlan {
    type V = SubscribePlanView;

    open spec fn view(&self) -> SubscribePlanView {
        SubscribePlanView {
            abort_dispatcher: self.abort_dispatcher,
            start_dispatcher: match self.start_dispatcher {
                Some(s) => Some(s@),
                None => None,
            },
            action: self.action@,
        }
    }
}

/// What to do when a device is released: whether to abort its notification
/// dispatcher and whether to disconnect it.
#[derive(Debug, PartialEq, Eq)]
pub struct CleanupPlan {
    pub abort_dispatcher: bool,
    pub disconnect: bool,
}

// ---------------------------------------------------------------------------
// Specification
// ---------------------------------------------------------------------------

/// The view of a result whose error is a message.
pub open spec fn unit_result_view(r: Result<(), String>) -> Result<(), Seq<char>> {
    match r {
        Ok(()) => Ok(()),
        Err(e) => Err(e@),
    }
}

/// The view of a result that carries bytes or an error message.
pub open spec fn bytes_result_view(r: Result<Vec<u8>, String>) -> Result<Seq<u8>, Seq<char>> {
    match r {
        Ok(b) => Ok(b@),
        Err(e) => Err(e@),
    }
}

/// The signal a call makes on a device that is not connected.
pub open spec fn not_connected_action(operation: Seq<char>) -> DeviceActionView {
    DeviceActionView::OperationFailed {
        operation,
        error: BleError::NotConnected.message_spec(),
    }
}

/// The message of a characteristic that could not be found.
pub open spec fn not_found_message(char_uuid: Seq<char>, service_uuid: Seq<char>) -> Seq<char> {
    "未找到特征值 UUID: "@ + (char_uuid + " in service "@ + service_uuid)
}

/// The failure event of an operation whose characteristic could not be found.
pub open spec fn not_found_event(
    address: Seq<char>,
    char_uuid: Seq<char>,
    service_uuid: Seq<char>,
    kind: CharEventKind,
) -> DeviceEventView {
    let error = not_found_message(char_uuid, service_uuid);
    match kind {
        CharEventKind::Read => DeviceEventView::CharacteristicReadFailed {
            device_address: address,
            char_uuid,
            error,
        },
        CharEventKind::Write => DeviceEventView::CharacteristicWriteFailed {
            device_address: address,
            char_uuid,
            error,
        },
        CharEventKind::Subscribe => DeviceEventView::SubscribeFailed {
            device_address: address,
            char_uuid,
            error,
        },
        CharEventKind::Unsubscribe => DeviceEventView::UnsubscribeFailed {
            device_address: address,
            char_uuid,
            error,
        },
    }
}

/// The most recently cached characteristic stored under the two keys.
pub open spec fn cache_lookup(
    cache: Seq<CacheEntryView>,
    service_key: Seq<char>,
    char_key: Seq<char>,
) -> Option<CharacteristicRecordView>
    decreases cache.len(),
{
    if cache.len() == 0 {
        None
    } else if cache.last().service_key == service_key && cache.last().char_key == char_key {
        Some(cache.last().characteristic)
    } else {
        cache_lookup(cache.drop_last(), service_key, char_key)
    }
}

/// The first characteristic of the list whose UUID and service UUID equal
/// the given ones up to ASCII case.
pub open spec fn scan_lookup(
    list: Seq<CharacteristicRecordView>,
    service_uuid: Seq<char>,
    char_uuid: Seq<char>,
) -> Option<CharacteristicRecordView>
    decreases list.len(),
{
    if list.len() == 0 {
        None
    } else if eq_ignore_ascii_case_spec(list[0].uuid, char_uuid) && eq_ignore_ascii_case_spec(
        list[0].service_uuid,
        service_uuid,
    ) {
        Some(list[0])
    } else {
        scan_lookup(list.drop_first(), service_uuid, char_uuid)
    }
}

/// The characteristic that an operation works on: the cached one under the
/// lower-case keys, or else the first match among the peripheral's
/// characteristics.
pub open spec fn find_spec(
    d: DeviceView,
    service_key: Seq<char>,
    char_key: Seq<char>,
    service_uuid: Seq<char>,
    char_uuid: Seq<char>,
    list: Seq<CharacteristicRecordView>,
) -> Option<CharacteristicRecordView> {
    match cache_lookup(d.cache, service_key, char_key) {
        Some(c) => Some(c),
        None => scan_lookup(list, service_uuid, char_uuid),
    }
}

/// What a read request does.
pub open spec fn read_step(
    d: DeviceView,
    service_key: Seq<char>,
    char_key: Seq<char>,
    service_uuid: Seq<char>,
    char_uuid: Seq<char>,
    list: Seq<CharacteristicRecordView>,
) -> DeviceActionView {
    if !d.connected {
        not_connected_action("read_characteristic"@)
    } else {
        match find_spec(d, service_key, char_key, service_uuid, char_uuid, list) {
            Some(c) => DeviceActionView::Read { characteristic: c, char_uuid },
            None => DeviceActionView::Report(
                not_found_event(d.address, char_uuid, service_uuid, CharEventKind::Read),
            ),
        }
    }
}

/// What a write request does.
pub open spec fn write_step(
    d: DeviceView,
    service_key: Seq<char>,
    char_key: Seq<char>,
    service_uuid: Seq<char>,
    char_uuid: Seq<char>,
    data: Seq<u8>,
    with_response: bool,
    list: Seq<CharacteristicRecordView>,
) -> DeviceActionView {
    if !d.connected {
        not_connected_action("write_characteristic"@)
    } else {
        match find_spec(d, service_key, char_key, service_uuid, char_uuid, list) {
            Some(c) => DeviceActionView::Write { characteristic: c, char_uuid, data, with_response },
            None => DeviceActionView::Report(
                not_found_event(d.address, char_uuid, service_uuid, CharEventKind::Write),
            ),
        }
    }
}

/// What a subscription request does to the state, and the plan it gives.
///
/// The lower-case UUID is reserved before any background work starts, so a
/// second request for the same characteristic does nothing; the
/// reservation is dropped again when the characteristic cannot be found.
pub open spec fn subscribe_step(
    d: DeviceView,
    service_key: Seq<char>,
    char_key: Seq<char>,
    service_uuid: Seq<char>,
    char_uuid: Seq<char>,
    dispatcher_finished: bool,
    list: Seq<CharacteristicRecordView>,
) -> (DeviceView, SubscribePlanView) {
    if !d.connected {
        (
            d,
            SubscribePlanView {
                abort_dispatcher: false,
                start_dispatcher: None,
                action: not_connected_action("subscribe_characteristic"@),
            },
        )
    } else if d.subscribed.contains(char_key) {
        (
            d,
            SubscribePlanView {
                abort_dispatcher: false,
                start_dispatcher: None,
                action: DeviceActionView::Nothing,
            },
        )
    } else {
        let needs_dispatcher = !d.dispatcher || dispatcher_finished;
        let reserved = DeviceView {
            subscribed: d.subscribed.insert(char_key),
            dispatcher: true,
            ..d
        };
        let abort_dispatcher = needs_dispatcher && d.dispatcher;
        let start_dispatcher = if needs_dispatcher {
            Some(char_key)
        } else {
            None
        };
        match find_spec(reserved, service_key, char_key, service_uuid, char_uuid, list) {
            Some(c) => (
                reserved,
                SubscribePlanView {
                    abort_dispatcher,
                    start_dispatcher,
                    action: DeviceActionView::Subscribe { characteristic: c, char_uuid, char_key },
                },
            ),
            None => (
                DeviceView { subscribed: reserved.subscribed.remove(char_key), ..reserved },
                SubscribePlanView {
                    abort_dispatcher,
                    start_dispatcher,
                    action: DeviceActionView::Report(
                        not_found_event(
                            d.address,
                            char_uuid,
                            service_uuid,
                            CharEventKind::Subscribe,
                        ),
                    ),
                },
            ),
        }
    }
}

/// What an unsubscription request does to the state, and its action. The
/// subscription ends at once, before any background work.
pub open spec fn unsubscribe_step(
    d: DeviceView,
    service_key: Seq<char>,
    char_key: Seq<char>,
    service_uuid: Seq<char>,
    char_uuid: Seq<char>,
    list: Seq<CharacteristicRecordView>,
) -> (DeviceView, DeviceActionView) {
    if !d.connected {
        (d, not_connected_action("unsubscribe_characteristic"@))
    } else {
        let next = DeviceView { subscribed: d.subscribed.remove(char_key), ..d };
        match find_spec(next, service_key, char_key, service_uuid, char_uuid, list) {
            Some(c) => (next, DeviceActionView::Unsubscribe { characteristic: c, char_uuid }),
            None => (
                next,
                DeviceActionView::Report(
                    not_found_event(d.address, char_uuid, service_uuid, CharEventKind::Unsubscribe),
                ),
            ),
        }
    }
}

/// The cache entries of one discovered service.
pub open spec fn service_cache_entries(s: DiscoveredServiceView) -> Seq<CacheEntryView> {
    s.characteristics.map_values(
        |c: CharacteristicRecordView|
            CacheEntryView {
                service_key: unicode_lowercase(s.uuid),
                char_key: unicode_lowercase(c.uuid),
                characteristic: c,
            },
    )
}

/// The cache that a discovery builds: the entries of each service in order.
pub open spec fn discovery_cache(services: Seq<DiscoveredServiceView>) -> Seq<CacheEntryView>
    decreases services.len(),
{
    if services.len() == 0 {
        Seq::empty()
    } else {
        discovery_cache(services.drop_last()) + service_cache_entries(services.last())
    }
}

/// The service descriptions that a discovery reports.
pub open spec fn discovery_infos(services: Seq<DiscoveredServiceView>) -> Seq<ServiceInfoView> {
    services.map_values(|s: DiscoveredServiceView| service_info_of(s))
}

/// What a successful discovery does: the services and the cache are
/// replaced, and the services are reported.
pub open spec fn discovered_step(d: DeviceView, services: Seq<DiscoveredServiceView>) -> (
    DeviceView,
    DeviceEventView,
) {
    (
        DeviceView {
            services: discovery_infos(services),
            cache: discovery_cache(services),
            ..d
        },
        DeviceEventView::ServicesDiscovered {
            device_address: d.address,
            services: discovery_infos(services),
        },
    )
}

/// What the result of a connection attempt does.
pub open spec fn connect_result_step(d: DeviceView, result: Result<(), Seq<char>>) -> (
    DeviceView,
    DeviceEventView,
) {
    match result {
        Ok(()) => (
            DeviceView { connected: true, ..d },
            DeviceEventView::ConnectSuccess { device_address: d.address },
        ),
        Err(e) => (
            d,
            DeviceEventView::ConnectFailed { device_address: d.address, error: "连接失败: "@ + e },
        ),
    }
}

/// What a subscription result does: a failure drops the reservation so the
/// subscription can be retried.
pub open spec fn subscribe_result_step(
    d: DeviceView,
    char_uuid: Seq<char>,
    char_key: Seq<char>,
    result: Result<(), Seq<char>>,
) -> (DeviceView, DeviceEventView) {
    match result {
        Ok(()) => (
            d,
            DeviceEventView::SubscribeSuccess { device_address: d.address, char_uuid },
        ),
        Err(e) => (
            DeviceView { subscribed: d.subscribed.remove(char_key), ..d },
            DeviceEventView::SubscribeFailed {
                device_address: d.address,
                char_uuid,
                error: "订阅通知失败: "@ + e,
            },
        ),
    }
}

/// The event that a notification gives: reported only while its
/// characteristic is subscribed to.
pub open spec fn notification_event(
    d: DeviceView,
    key: Seq<char>,
    uuid: Seq<char>,
    data: Seq<u8>,
) -> Option<DeviceEventView> {
    if d.subscribed.contains(key) {
        Some(
            DeviceEventView::CharacteristicNotified { device_address: d.address, char_uuid: uuid, data },
        )
    } else {
        None
    }
}

/// The state of a device after its notification stream ended: the device
/// is gone, so it is no longer connected and nothing is subscribed.
pub open spec fn stream_end_state(d: DeviceView) -> DeviceView {
    DeviceView { connected: false, subscribed: Set::empty(), ..d }
}

/// The state of a device after `disconnect` was called.
pub open spec fn disconnect_state(d: DeviceView) -> DeviceView {
    DeviceView { subscribed: Set::empty(), dispatcher: false, ..d }
}

// ---------------------------------------------------------------------------
// Implementation
// ---------------------------------------------------------------------------

impl BleDevice {
    /// A device that is not connected, with nothing discovered or subscribed.
    pub fn new(address: String, name: String) -> (r: BleDevice)
        ensures
            r@ == (DeviceView {
                address: address@,
                name: name@,
                connected: false,
                services: Seq::empty(),
                subscribed: Set::empty(),
                dispatcher: false,
                cache: Seq::empty(),
            }),
    {
        let r = BleDevice {
            address,
            name,
            connected: false,
            services: Vec::new(),
            subscribed: StringSet::new(),
            dispatcher: false,
            cache: Vec::new(),
        };
        assert(service_infos_view(r.services@) =~= Seq::<ServiceInfoView>::empty());
        assert(cache_view(r.cache@) =~= Seq::<CacheEntryView>::empty());
        r
    }

    /// Whether the device is connected.
    pub fn is_connected(&self) -> (r: bool)
        ensures
            r == self@.connected,
    {
        self.connected
    }

    /// The device's address.
    pub fn get_address(&self) -> (r: String)
        ensures
            r@ == self@.address,
    {
        self.address.clone()
    }

    /// The device's name.
    pub fn get_name(&self) -> (r: String)
        ensures
            r@ == self@.name,
    {
        self.name.clone()
    }

    /// The dictionaries of the services found by the last discovery.
    pub fn get_services(&self) -> (r: Vec<Dictionary>)
        ensures
            dicts_view(r@) == self@.services.map_values(|s: ServiceInfoView| service_dict(s)),
    {
        let ghost target = self@.services.map_values(|s: ServiceInfoView| service_dict(s));
        let mut out: Vec<Dictionary> = Vec::new();
        let mut i: usize = 0;
        while i < self.services.len()
            invariant
                i <= self.services.len(),
                target == service_infos_view(self.services@).map_values(
                    |s: ServiceInfoView| service_dict(s),
                ),
                dicts_view(out@) =~= target.take(i as int),
            decreases self.services.len() - i,
        {
            let d = self.services[i].to_dictionary();
            let ghost before = out@;
            out.push(d);
            assert(dicts_view(out@) =~= dicts_view(before).push(d@));
            assert(target.take(i as int + 1) =~= target.take(i as int).push(d@));
            i = i + 1;
        }
        assert(target.take(i as int) =~= target);
        out
    }

    fn not_connected(operation: &str) -> (r: DeviceAction)
        ensures
            r@ == not_connected_action(operation@),
    {
        DeviceAction::OperationFailed {
            operation: String::from_str(operation),
            error: BleError::NotConnected.to_string(),
        }
    }

    /// The failure event of an operation whose characteristic could not be
    /// found.
    pub fn char_not_found_event(
        &self,
        char_uuid: &str,
        service_uuid: &str,
        kind: CharEventKind,
    ) -> (r: BleDeviceEvent)
        ensures
            r@ == not_found_event(self@.address, char_uuid@, service_uuid@, kind),
    {
        let detail = concat3(char_uuid, " in service ", service_uuid);
        let error = BleError::CharacteristicNotFound(detail).to_string();
        let device_address = self.address.clone();
        let char_uuid = String::from_str(char_uuid);
        match kind {
            CharEventKind::Read => BleDeviceEvent::CharacteristicReadFailed {
                device_address,
                char_uuid,
                error,
            },
            CharEventKind::Write => BleDeviceEvent::CharacteristicWriteFailed {
                device_address,
                char_uuid,
                error,
            },
            CharEventKind::Subscribe => BleDeviceEvent::SubscribeFailed {
                device_address,
                char_uuid,
                error,
            },
            CharEventKind::Unsubscribe => BleDeviceEvent::UnsubscribeFailed {
                device_address,
                char_uuid,
                error,
            },
        }
    }

    fn lookup_cache(&self, service_key: &str, char_key: &str) -> (r: Option<CharacteristicRecord>)
        ensures
            match r {
                Some(c) => cache_lookup(self@.cache, service_key@, char_key@) == Some(c@),
                None => cache_lookup(self@.cache, service_key@, char_key@) is None,
            },
    {
        let mut i: usize = self.cache.len();
        assert(self@.cache.take(i as int) =~= self@.cache);
        while i > 0
            invariant
                i <= self.cache.len(),
                cache_lookup(self@.cache, service_key@, char_key@) == cache_lookup(
                    self@.cache.take(i as int),
                    service_key@,
                    char_key@,
                ),
            decreases i,
        {
            let e = &self.cache[i - 1];
            assert(self@.cache.take(i as int).last() == e@);
            if str_equal(e.service_key.as_str(), service_key) && str_equal(
                e.char_key.as_str(),
                char_key,
            ) {
                return Some(e.characteristic.duplicate());
            }
            assert(self@.cache.take(i as int).drop_last() =~= self@.cache.take(i as int - 1));
            i = i - 1;
        }
        None
    }

    fn scan_characteristics(
        list: &Vec<CharacteristicRecord>,
        service_uuid: &str,
        char_uuid: &str,
    ) -> (r: Option<CharacteristicRecord>)
        ensures
            match r {
                Some(c) => scan_lookup(records_view(list@), service_uuid@, char_uuid@) == Some(c@),
                None => scan_lookup(records_view(list@), service_uuid@, char_uuid@) is None,
            },
    {
        let ghost all = records_view(list@);
        let mut i: usize = 0;
        assert(all.skip(0) =~= all);
        while i < list.len()
            invariant
                i <= list.len(),
                all == records_view(list@),
                scan_lookup(all, service_uuid@, char_uuid@) == scan_lookup(
                    all.skip(i as int),
                    service_uuid@,
                    char_uuid@,
                ),
            decreases list.len() - i,
        {
            let c = &list[i];
            assert(all.skip(i as int)[0] == c@);
            if eq_ignore_ascii_case(c.uuid.as_str(), char_uuid) && eq_ignore_ascii_case(
                c.service_uuid.as_str(),
                service_uuid,
            ) {
                return Some(c.duplicate());
            }
            assert(all.skip(i as int).drop_first() =~= all.skip(i as int + 1));
            i = i + 1;
        }
        None
    }

    /// The characteristic stored in the cache under the lower-case keys, or
    /// else the first one of `peripheral_characteristics` whose UUID and
    /// service UUID equal `char_uuid` and `service_uuid` up to ASCII case.
    pub fn find_with_keys(
        &self,
        service_key: &str,
        char_key: &str,
        service_uuid: &str,
        char_uuid: &str,
        peripheral_characteristics: &Vec<CharacteristicRecord>,
    ) -> (r: Option<CharacteristicRecord>)
        ensures
            match r {
                Some(c) => find_spec(
                    self@,
                    service_key@,
                    char_key@,
                    service_uuid@,
                    char_uuid@,
                    records_view(peripheral_characteristics@),
                ) == Some(c@),
                None => find_spec(
                    self@,
                    service_key@,
                    char_key@,
                    service_uuid@,
                    char_uuid@,
                    records_view(peripheral_characteristics@),
                ) is None,
            },
    {
        match self.lookup_cache(service_key, char_key) {
            Some(c) => Some(c),
            None => Self::scan_characteristics(peripheral_characteristics, service_uuid, char_uuid),
        }
    }

    /// The characteristic with the given service and characteristic UUIDs:
    /// found in the cache under their lower-case forms, or else among
    /// `peripheral_characteristics`.
    pub fn find_characteristic(
        &self,
        service_uuid: &str,
        char_uuid: &str,
        peripheral_characteristics: &Vec<CharacteristicRecord>,
    ) -> (r: Option<CharacteristicRecord>)
        ensures
            match r {
                Some(c) => find_spec(
                    self@,
                    unicode_lowercase(service_uuid@),
                    unicode_lowercase(char_uuid@),
                    service_uuid@,
                    char_uuid@,
                    records_view(peripheral_characteristics@),
                ) == Some(c@),
                None => find_spec(
                    self@,
                    unicode_lowercase(service_uuid@),
                    unicode_lowercase(char_uuid@),
                    service_uuid@,
                    char_uuid@,
                    records_view(peripheral_characteristics@),
                ) is None,
            },
    {
        let service_key = to_lowercase(service_uuid);
        let char_key = to_lowercase(char_uuid);
        self.find_with_keys(
            service_key.as_str(),
            char_key.as_str(),
            service_uuid,
            char_uuid,
            peripheral_characteristics,
        )
    }

    // -- connection ---------------------------------------------------------

    /// Records the result of a connection attempt and gives the event to
    /// report.
    pub fn on_connect_result(&mut self, result: Result<(), String>) -> (r: BleDeviceEvent)
        ensures
            (final(self)@, r@) == connect_result_step(old(self)@, unit_result_view(result)),
    {
        match result {
            Ok(()) => {
                self.connected = true;
                BleDeviceEvent::ConnectSuccess { device_address: self.address.clone() }
            },
            Err(e) => {
                let error = BleError::ConnectionFailed(e).to_string();
                BleDeviceEvent::ConnectFailed { device_address: self.address.clone(), error }
            },
        }
    }

    /// Ends every subscription and stops the notification dispatcher; gives
    /// whether a running dispatcher must be aborted. The device stays
    /// connected until `on_disconnected`.
    pub fn disconnect(&mut self) -> (abort_dispatcher: bool)
        ensures
            final(self)@ == disconnect_state(old(self)@),
            abort_dispatcher == old(self)@.dispatcher,
    {
        let abort_dispatcher = self.dispatcher;
        self.dispatcher = false;
        self.subscribed.clear();
        abort_dispatcher
    }

    /// Records that the peripheral disconnected and gives the event to report.
    pub fn on_disconnected(&mut self) -> (r: BleDeviceEvent)
        ensures
            final(self)@ == (DeviceView { connected: false, ..old(self)@ }),
            r@ == (DeviceEventView::Disconnected { device_address: old(self)@.address }),
    {
        self.connected = false;
        BleDeviceEvent::Disconnected { device_address: self.address.clone() }
    }

    /// What to do when the device is released: abort the dispatcher if one
    /// runs, and disconnect if still connected.
    pub fn cleanup(&mut self) -> (r: CleanupPlan)
        ensures
            final(self)@ == (DeviceView { dispatcher: false, ..old(self)@ }),
            r.abort_dispatcher == old(self)@.dispatcher,
            r.disconnect == old(self)@.connected,
    {
        let plan = CleanupPlan { abort_dispatcher: self.dispatcher, disconnect: self.connected };
        self.dispatcher = false;
        plan
    }

    /// Records that the disconnection started by `cleanup` finished.
    pub fn on_cleanup_disconnected(&mut self)
        ensures
            final(self)@ == stream_end_state(old(self)@),
    {
        self.connected = false;
        self.subscribed.clear();
    }

    // -- service discovery --------------------------------------------------

    /// Starts service discovery on a connected device; on a device that is
    /// not connected, reports the failure instead.
    pub fn discover_services(&self) -> (r: DeviceAction)
        ensures
            r@ == if self@.connected {
                DeviceActionView::DiscoverServices
            } else {
                not_connected_action("discover_services"@)
            },
    {
        if !self.connected {
            return Self::not_connected("discover_services");
        }
        DeviceAction::DiscoverServices
    }

    /// Records the services that discovery found: their descriptions, and a
    /// cache entry for each characteristic under the lower-case UUIDs of its
    /// service and of itself. Gives the event that reports the services.
    pub fn on_services_discovered(&mut self, services: &Vec<DiscoveredService>) -> (r: BleDeviceEvent)
        ensures
            (final(self)@, r@) == discovered_step(old(self)@, discovered_view(services@)),
    {
        let ghost ss = discovered_view(services@);
        let mut infos: Vec<BleServiceInfo> = Vec::new();
        let mut cache: Vec<CacheEntry> = Vec::new();
        let mut i: usize = 0;
        while i < services.len()
            invariant
                i <= services.len(),
                ss == discovered_view(services@),
                service_infos_view(infos@) =~= discovery_infos(ss).take(i as int),
                cache_view(cache@) =~= discovery_cache(ss.take(i as int)),
            decreases services.len() - i,
        {
            let s = &services[i];
            let service_key = to_lowercase(s.uuid.as_str());
            let ghost prefix = cache_view(cache@);
            let mut j: usize = 0;
            while j < s.characteristics.len()
                invariant
                    j <= s.characteristics.len(),
                    s == services[i as int],
                    service_key@ == unicode_lowercase(s.uuid@),
                    cache_view(cache@) =~= prefix + service_cache_entries(s@).take(j as int),
                decreases s.characteristics.len() - j,
            {
                let c = &s.characteristics[j];
                let entry = CacheEntry {
                    service_key: service_key.clone(),
                    char_key: to_lowercase(c.uuid.as_str()),
                    characteristic: c.duplicate(),
                };
                let ghost before = cache@;
                cache.push(entry);
                assert(cache_view(cache@) =~= cache_view(before).push(entry@));
                assert(service_cache_entries(s@).take(j as int + 1) =~= service_cache_entries(
                    s@,
                ).take(j as int).push(entry@));
                j = j + 1;
            }
            assert(service_cache_entries(s@).take(j as int) =~= service_cache_entries(s@));
            assert(ss.take(i as int + 1).drop_last() =~= ss.take(i as int));
            assert(ss.take(i as int + 1).last() == s@);
            let info = BleServiceInfo::from_discovered(s);
            let ghost before_infos = infos@;
            infos.push(info);
            assert(service_infos_view(infos@) =~= service_infos_view(before_infos).push(info@));
            assert(discovery_infos(ss).take(i as int + 1) =~= discovery_infos(ss).take(
                i as int,
            ).push(info@));
            i = i + 1;
        }
        assert(discovery_infos(ss).take(i as int) =~= discovery_infos(ss));
        assert(ss.take(i as int) =~= ss);
        let mut copies: Vec<BleServiceInfo> = Vec::new();
        let mut k: usize = 0;
        while k < infos.len()
            invariant
                k <= infos.len(),
                service_infos_view(copies@) =~= service_infos_view(infos@).take(k as int),
            decreases infos.len() - k,
        {
            let c = infos[k].duplicate();
            let ghost before = copies@;
            copies.push(c);
            assert(service_infos_view(copies@) =~= service_infos_view(before).push(c@));
            assert(service_infos_view(infos@).take(k as int + 1) =~= service_infos_view(
                infos@,
            ).take(k as int).push(c@));
            k = k + 1;
        }
        assert(service_infos_view(infos@).take(k as int) =~= service_infos_view(infos@));
        self.cache = cache;
        self.services = copies;
        BleDeviceEvent::ServicesDiscovered { device_address: self.address.clone(), services: infos }
    }

    /// The event that reports a failed discovery.
    pub fn on_service_discovery_failed(&self, error: String) -> (r: BleDeviceEvent)
        ensures
            r@ == (DeviceEventView::ServiceDiscoveryFailed {
                device_address: self@.address,
                error: "服务发现失败: "@ + error@,
            }),
    {
        let error = BleError::ServiceDiscoveryFailed(error).to_string();
        BleDeviceEvent::ServiceDiscoveryFailed { device_address: self.address.clone(), error }
    }

    // -- read and write -----------------------------------------------------

    /// A read request, given the lower-case forms of the two UUIDs.
    pub fn read_with_keys(
        &self,
        service_key: &str,
        char_key: &str,
        service_uuid: &str,
        char_uuid: &str,
        peripheral_characteristics: &Vec<CharacteristicRecord>,
    ) -> (r: DeviceAction)
        ensures
            r@ == read_step(
                self@,
                service_key@,
                char_key@,
                service_uuid@,
                char_uuid@,
                records_view(peripheral_characteristics@),
            ),
    {
        if !self.connected {
            return Self::not_connected("read_characteristic");
        }
        match self.find_with_keys(
            service_key,
            char_key,
            service_uuid,
            char_uuid,
            peripheral_characteristics,
        ) {
            Some(c) => DeviceAction::Read { characteristic: c, char_uuid: String::from_str(char_uuid) },
            None => DeviceAction::Report(
                self.char_not_found_event(char_uuid, service_uuid, CharEventKind::Read),
            ),
        }
    }

    /// A request to read a characteristic: on a connected device, read the
    /// characteristic found by `find_characteristic`, or report that it was
    /// not found.
    pub fn read_characteristic(
        &self,
        service_uuid: &str,
        char_uuid: &str,
        peripheral_characteristics: &Vec<CharacteristicRecord>,
    ) -> (r: DeviceAction)
        ensures
            r@ == read_step(
                self@,
                unicode_lowercase(service_uuid@),
                unicode_lowercase(char_uuid@),
                service_uuid@,
                char_uuid@,
                records_view(peripheral_characteristics@),
            ),
    {
        let service_key = to_lowercase(service_uuid);
        let char_key = to_lowercase(char_uuid);
        self.read_with_keys(
            service_key.as_str(),
            char_key.as_str(),
            service_uuid,
            char_uuid,
            peripheral_characteristics,
        )
    }

    /// The event that reports the result of a read.
    pub fn on_read_result(&self, char_uuid: String, result: Result<Vec<u8>, String>) -> (r: BleDeviceEvent)
        ensures
            r@ == match bytes_result_view(result) {
                Ok(data) => DeviceEventView::CharacteristicRead {
                    device_address: self@.address,
                    char_uuid: char_uuid@,
                    data,
                },
                Err(e) => DeviceEventView::CharacteristicReadFailed {
                    device_address: self@.address,
                    char_uuid: char_uuid@,
                    error: "读取特征值失败: "@ + e,
                },
            },
    {
        match result {
            Ok(data) => BleDeviceEvent::CharacteristicRead {
                device_address: self.address.clone(),
                char_uuid,
                data,
            },
            Err(e) => BleDeviceEvent::CharacteristicReadFailed {
                device_address: self.address.clone(),
                char_uuid,
                error: BleError::ReadFailed(e).to_string(),
            },
        }
    }

    /// A write request, given the lower-case forms of the two UUIDs.
    pub fn write_with_keys(
        &self,
        service_key: &str,
        char_key: &str,
        service_uuid: &str,
        char_uuid: &str,
        data: &Vec<u8>,
        with_response: bool,
        peripheral_characteristics: &Vec<CharacteristicRecord>,
    ) -> (r: DeviceAction)
        ensures
            r@ == write_step(
                self@,
                service_key@,
                char_key@,
                service_uuid@,
                char_uuid@,
                data@,
                with_response,
                records_view(peripheral_characteristics@),
            ),
    {
        if !self.connected {
            return Self::not_connected("write_characteristic");
        }
        match self.find_with_keys(
            service_key,
            char_key,
            service_uuid,
            char_uuid,
            peripheral_characteristics,
        ) {
            Some(c) => DeviceAction::Write {
                characteristic: c,
                char_uuid: String::from_str(char_uuid),
                data: copy_bytes(data),
                with_response,
            },
            None => DeviceAction::Report(
                self.char_not_found_event(char_uuid, service_uuid, CharEventKind::Write),
            ),
        }
    }

    /// A request to write `data` to a characteristic, with or without a
    /// response from the peripheral.
    pub fn write_characteristic(
        &self,
        service_uuid: &str,
        char_uuid: &str,
        data: &Vec<u8>,
        with_response: bool,
        peripheral_characteristics: &Vec<CharacteristicRecord>,
    ) -> (r: DeviceAction)
        ensures
            r@ == write_step(
                self@,
                unicode_lowercase(service_uuid@),
                unicode_lowercase(char_uuid@),
                service_uuid@,
                char_uuid@,
                data@,
                with_response,
                records_view(peripheral_characteristics@),
            ),
    {
        let service_key = to_lowercase(service_uuid);
        let char_key = to_lowercase(char_uuid);
        self.write_with_keys(
            service_key.as_str(),
            char_key.as_str(),
            service_uuid,
            char_uuid,
            data,
            with_response,
            peripheral_characteristics,
        )
    }

    /// The event that reports the result of a write.
    pub fn on_write_result(&self, char_uuid: String, result: Result<(), String>) -> (r: BleDeviceEvent)
        ensures
            r@ == match unit_result_view(result) {
                Ok(()) => DeviceEventView::CharacteristicWritten {
                    device_address: self@.address,
                    char_uuid: char_uuid@,
                },
                Err(e) => DeviceEventView::CharacteristicWriteFailed {
                    device_address: self@.address,
                    char_uuid: char_uuid@,
                    error: "写入特征值失败: "@ + e,
                },
            },
    {
        match result {
            Ok(()) => BleDeviceEvent::CharacteristicWritten {
                device_address: self.address.clone(),
                char_uuid,
            },
            Err(e) => BleDeviceEvent::CharacteristicWriteFailed {
                device_address: self.address.clone(),
                char_uuid,
                error: BleError::WriteFailed(e).to_string(),
            },
        }
    }

    // -- notifications ------------------------------------------------------

    /// A subscription request, given the lower-case forms of the two UUIDs.
    /// `dispatcher_finished` tells whether the dispatcher that was started
    /// has stopped on its own.
    pub fn subscribe_with_keys(
        &mut self,
        service_key: &str,
        char_key: &str,
        service_uuid: &str,
        char_uuid: &str,
        dispatcher_finished: bool,
        peripheral_characteristics: &Vec<CharacteristicRecord>,
    ) -> (r: SubscribePlan)
        ensures
            (final(self)@, r@) == subscribe_step(
                old(self)@,
                service_key@,
                char_key@,
                service_uuid@,
                char_uuid@,
                dispatcher_finished,
                records_view(peripheral_characteristics@),
            ),
    {
        if !self.connected {
            return SubscribePlan {
                abort_dispatcher: false,
                start_dispatcher: None,
                action: Self::not_connected("subscribe_characteristic"),
            };
        }
        if self.subscribed.contains(char_key) {
            return SubscribePlan {
                abort_dispatcher: false,
                start_dispatcher: None,
                action: DeviceAction::Nothing,
            };
        }
        self.subscribed.insert(String::from_str(char_key));
        let needs_dispatcher = !self.dispatcher || dispatcher_finished;
        let abort_dispatcher = needs_dispatcher && self.dispatcher;
        let start_dispatcher = if needs_dispatcher {
            Some(String::from_str(char_key))
        } else {
            None
        };
        self.dispatcher = true;
        match self.find_with_keys(
            service_key,
            char_key,
            service_uuid,
            char_uuid,
            peripheral_characteristics,
        ) {
            Some(c) => SubscribePlan {
                abort_dispatcher,
                start_dispatcher,
                action: DeviceAction::Subscribe {
                    characteristic: c,
                    char_uuid: String::from_str(char_uuid),
                    char_key: String::from_str(char_key),
                },
            },
            None => {
                self.subscribed.remove(char_key);
                SubscribePlan {
                    abort_dispatcher,
                    start_dispatcher,
                    action: DeviceAction::Report(
                        self.char_not_found_event(char_uuid, service_uuid, CharEventKind::Subscribe),
                    ),
                }
            },
        }
    }

    /// A request to subscribe to a characteristic's notifications.
    pub fn subscribe_characteristic(
        &mut self,
        service_uuid: &str,
        char_uuid: &str,
        dispatcher_finished: bool,
        peripheral_characteristics: &Vec<CharacteristicRecord>,
    ) -> (r: SubscribePlan)
        ensures
            (final(self)@, r@) == subscribe_step(
                old(self)@,
                unicode_lowercase(service_uuid@),
                unicode_lowercase(char_uuid@),
                service_uuid@,
                char_uuid@,
                dispatcher_finished,
                records_view(peripheral_characteristics@),
            ),
    {
        let service_key = to_lowercase(service_uuid);
        let char_key = to_lowercase(char_uuid);
        self.subscribe_with_keys(
            service_key.as_str(),
            char_key.as_str(),
            service_uuid,
            char_uuid,
            dispatcher_finished,
            peripheral_characteristics,
        )
    }

    /// Records the result of a subscription and gives the event to report.
    pub fn on_subscribe_result(
        &mut self,
        char_uuid: String,
        char_key: &str,
        result: Result<(), String>,
    ) -> (r: BleDeviceEvent)
        ensures
            (final(self)@, r@) == subscribe_result_step(
                old(self)@,
                char_uuid@,
                char_key@,
                unit_result_view(result),
            ),
    {
        match result {
            Ok(()) => BleDeviceEvent::SubscribeSuccess {
                device_address: self.address.clone(),
                char_uuid,
            },
            Err(e) => {
                self.subscribed.remove(char_key);
                BleDeviceEvent::SubscribeFailed {
                    device_address: self.address.clone(),
                    char_uuid,
                    error: BleError::SubscribeFailed(e).to_string(),
                }
            },
        }
    }

    /// An unsubscription request, given the lower-case forms of the two UUIDs.
    pub fn unsubscribe_with_keys(
        &mut self,
        service_key: &str,
        char_key: &str,
        service_uuid: &str,
        char_uuid: &str,
        peripheral_characteristics: &Vec<CharacteristicRecord>,
    ) -> (r: DeviceAction)
        ensures
            (final(self)@, r@) == unsubscribe_step(
                old(self)@,
                service_key@,
                char_key@,
                service_uuid@,
                char_uuid@,
                records_view(peripheral_characteristics@),
            ),
    {
        if !self.connected {
            return Self::not_connected("unsubscribe_characteristic");
        }
        self.subscribed.remove(char_key);
        match self.find_with_keys(
            service_key,
            char_key,
            service_uuid,
            char_uuid,
            peripheral_characteristics,
        ) {
            Some(c) => DeviceAction::Unsubscribe {
                characteristic: c,
                char_uuid: String::from_str(char_uuid),
            },
            None => DeviceAction::Report(
                self.char_not_found_event(char_uuid, service_uuid, CharEventKind::Unsubscribe),
            ),
        }
    }

    /// A request to end a subscription to a characteristic's notifications.
    pub fn unsubscribe_characteristic(
        &mut self,
        service_uuid: &str,
        char_uuid: &str,
        peripheral_characteristics: &Vec<CharacteristicRecord>,
    ) -> (r: DeviceAction)
        ensures
            (final(self)@, r@) == unsubscribe_step(
                old(self)@,
                unicode_lowercase(service_uuid@),
                unicode_lowercase(char_uuid@),
                service_uuid@,
                char_uuid@,
                records_view(peripheral_characteristics@),
            ),
    {
        let service_key = to_lowercase(service_uuid);
        let char_key = to_lowercase(char_uuid);
        self.unsubscribe_with_keys(
            service_key.as_str(),
            char_key.as_str(),
            service_uuid,
            char_uuid,
            peripheral_characteristics,
        )
    }

    /// The event that reports the result of an unsubscription.
    pub fn on_unsubscribe_result(&self, char_uuid: String, result: Result<(), String>) -> (r: BleDeviceEvent)
        ensures
            r@ == match unit_result_view(result) {
                Ok(()) => DeviceEventView::UnsubscribeSuccess {
                    device_address: self@.address,
                    char_uuid: char_uuid@,
                },
                Err(e) => DeviceEventView::UnsubscribeFailed {
                    device_address: self@.address,
                    char_uuid: char_uuid@,
                    error: "取消订阅失败: "@ + e,
                },
            },
    {
        match result {
            Ok(()) => BleDeviceEvent::UnsubscribeSuccess {
                device_address: self.address.clone(),
                char_uuid,
            },
            Err(e) => BleDeviceEvent::UnsubscribeFailed {
                device_address: self.address.clone(),
                char_uuid,
                error: BleError::UnsubscribeFailed(e).to_string(),
            },
        }
    }

    /// The event for a notification whose characteristic has the lower-case
    /// UUID `key`: reported only while that characteristic is subscribed to.
    pub fn route_notification(&self, key: &str, uuid: String, data: Vec<u8>) -> (r: Option<
        BleDeviceEvent,
    >)
        ensures
            match r {
                Some(e) => notification_event(self@, key@, uuid@, data@) == Some(e@),
                None => notification_event(self@, key@, uuid@, data@) is None,
            },
    {
        if self.subscribed.contains(key) {
            Some(
                BleDeviceEvent::CharacteristicNotified {
                    device_address: self.address.clone(),
                    char_uuid: uuid,
                    data,
                },
            )
        } else {
            None
        }
    }

    /// The event for a notification from the characteristic with UUID `uuid`.
    pub fn on_notification(&self, uuid: String, data: Vec<u8>) -> (r: Option<BleDeviceEvent>)
        ensures
            match r {
                Some(e) => notification_event(self@, unicode_lowercase(uuid@), uuid@, data@) == Some(
                    e@,
                ),
                None => notification_event(self@, unicode_lowercase(uuid@), uuid@, data@) is None,
            },
    {
        let key = to_lowercase(uuid.as_str());
        self.route_notification(key.as_str(), uuid, data)
    }

    /// Records that the notification stream ended, which means the
    /// peripheral is gone, and gives the event to report.
    pub fn on_notification_stream_end(&mut self) -> (r: BleDeviceEvent)
        ensures
            final(self)@ == stream_end_state(old(self)@),
            r@ == (DeviceEventView::Disconnected { device_address: old(self)@.address }),
    {
        self.connected = false;
        self.subscribed.clear();
        BleDeviceEvent::Disconnected { device_address: self.address.clone() }
    }

    /// Records that the notification stream could not be opened: the
    /// subscription that started the dispatcher is dropped so it can be
    /// retried. Gives the event to report.
    pub fn on_notification_stream_failed(&mut self, char_key: &str, error: &str) -> (r: BleDeviceEvent)
        ensures
            final(self)@ == (DeviceView {
                subscribed: old(self)@.subscribed.remove(char_key@),
                ..old(self)@
            }),
            r@ == (DeviceEventView::SubscribeFailed {
                device_address: old(self)@.address,
                char_uuid: char_key@,
                error: "notifications() failed: "@ + error@,
            }),
    {
        self.subscribed.remove(char_key);
        BleDeviceEvent::SubscribeFailed {
            device_address: self.address.clone(),
            char_uuid: String::from_str(char_key),
            error: concat2("notifications() failed: ", error),
        }
    }
}

} // verus!
