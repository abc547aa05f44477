//! Records that the plugin reports to scripts: scanned devices, adapters and
//! the events of a connected device.
use vstd::prelude::*;
use crate::characteristic::{service_infos_view, BleServiceInfo, ServiceInfoView};
use crate::dictionary::{
    copy_bytes, copy_texts, int_entry, lemma_dict_value_view, text_entry, texts_view, DictValue,
    DictValueView, Dictionary, DictKeyView,
};

verus! {

/// What a scan learned about one device.
///
/// Manufacturer data is listed by company identifier and service data by
/// service UUID, each key at most once (see `DeviceInfo::wf`).
#[derive(Debug, PartialEq, Eq)]
pub struct DeviceInfo {
    pub address: String,
    pub name: Option<String>,
    pub rssi: Option<i16>,
    pub services: Vec<String>,
    pub manufacturer_data: Vec<(u16, Vec<u8>)>,
    pub service_data: Vec<(String, Vec<u8>)>,
    pub tx_power_level: Option<i16>,
    pub paired: bool,
    pub can_pair: bool,
    pub pairing_status: String,
}

/// The mathematical form of a device record.
pub struct DeviceInfoView {
    pub address: Seq<char>,
    pub name: Option<Seq<char>>,
    pub rssi: Option<i16>,
    pub services: Seq<Seq<char>>,
    pub manufacturer_data: Seq<(u16, Seq<u8>)>,
    pub service_data: Seq<(Seq<char>, Seq<u8>)>,
    pub tx_power_level: Option<i16>,
    pub paired: bool,
    pub can_pair: bool,
    pub pairing_status: Seq<char>,
}

/// The view of an optional string.
pub open spec fn opt_text_view(o: Option<String>) -> Option<Seq<char>> {
    match o {
        Some(s) => Some(s@),
        None => None,
    }
}

/// The views of manufacturer data entries.
pub open spec fn manufacturer_view(v: Seq<(u16, Vec<u8>)>) -> Seq<(u16, Seq<u8>)> {
    v.map_values(|e: (u16, Vec<u8>)| (e.0, e.1@))
}

/// The views of service data entries.
pub open spec fn service_data_view(v: Seq<(String, Vec<u8>)>) -> Seq<(Seq<char>, Seq<u8>)> {
    v.map_values(|e: (String, Vec<u8>)| (e.0@, e.1@))
}

/// No company identifier occurs twice.
pub open spec fn distinct_ids(s: Seq<(u16, Seq<u8>)>) -> bool {
    forall|i: int, j: int| 0 <= i < j < s.len() ==> #[trigger] s[i].0 != #[trigger] s[j].0
}

/// No service UUID occurs twice.
pub open spec fn distinct_keys(s: Seq<(Seq<char>, Seq<u8>)>) -> bool {
    forall|i: int, j: int| 0 <= i < j < s.len() ==> #[trigger] s[i].0 != #[trigger] s[j].0
}

impl View for DeviceInfo {
    type V = DeviceInfoView;

    open spec fn view(&self) -> DeviceInfoView {
        DeviceInfoView {
            address: self.address@,
            name: opt_text_view(self.name),
            rssi: self.rssi,
            services: texts_view(self.services@),
            manufacturer_data: manufacturer_view(self.manufacturer_data@),
            service_data: service_data_view(self.service_data@),
            tx_power_level: self.tx_power_level,
            paired: self.paired,
            can_pair: self.can_pair,
            pairing_status: self.pairing_status@,
        }
    }
}

/// A dictionary value that is a string, or nil when absent.
pub open spec fn opt_text_value(o: Option<Seq<char>>) -> DictValueView {
    match o {
        Some(s) => DictValueView::Text(s),
        None => DictValueView::Nil,
    }
}

/// A dictionary value that is a string, empty when absent.
pub open spec fn text_or_empty(o: Option<Seq<char>>) -> DictValueView {
    match o {
        Some(s) => DictValueView::Text(s),
        None => DictValueView::Text(Seq::empty()),
    }
}

/// A dictionary value that is an integer, or nil when absent.
pub open spec fn opt_int_value(o: Option<i16>) -> DictValueView {
    match o {
        Some(i) => DictValueView::Int(i as i64),
        None => DictValueView::Nil,
    }
}

/// The nested dictionary of manufacturer data: company identifier to bytes.
pub open spec fn manufacturer_dict(s: Seq<(u16, Seq<u8>)>) -> Seq<(DictKeyView, DictValueView)> {
    s.map_values(|e: (u16, Seq<u8>)| int_entry(e.0 as i64, DictValueView::Bytes(e.1)))
}

/// The nested dictionary of service data: service UUID to bytes.
pub open spec fn service_data_dict(s: Seq<(Seq<char>, Seq<u8>)>) -> Seq<(DictKeyView, DictValueView)> {
    s.map_values(|e: (Seq<char>, Seq<u8>)| text_entry(e.0, DictValueView::Bytes(e.1)))
}

/// The dictionary form of a device record. The name is a string, empty for
/// a device that advertised none. The advertised services appear under three
/// keys: `services`, `service_uuids` and `uuids`.
pub open spec fn device_dict(d: DeviceInfoView) -> Seq<(DictKeyView, DictValueView)> {
    seq![
        text_entry("address"@, DictValueView::Text(d.address)),
        text_entry("name"@, text_or_empty(d.name)),
        text_entry("rssi"@, opt_int_value(d.rssi)),
        text_entry("services"@, DictValueView::TextList(d.services)),
        text_entry("service_uuids"@, DictValueView::TextList(d.services)),
        text_entry("uuids"@, DictValueView::TextList(d.services)),
        text_entry("manufacturer_data"@, DictValueView::Dict(manufacturer_dict(d.manufacturer_data))),
        text_entry("service_data"@, DictValueView::Dict(service_data_dict(d.service_data))),
        text_entry("tx_power_level"@, opt_int_value(d.tx_power_level)),
        text_entry("paired"@, DictValueView::Bool(d.paired)),
        text_entry("can_pair"@, DictValueView::Bool(d.can_pair)),
        text_entry("pairing_status"@, DictValueView::Text(d.pairing_status)),
    ]
}

fn copy_opt_text(o: &Option<String>) -> (r: Option<String>)
    ensures
        opt_text_view(r) == opt_text_view(*o),
{
    match o {
        Some(s) => Some(s.clone()),
        None => None,
    }
}

fn copy_manufacturer(v: &Vec<(u16, Vec<u8>)>) -> (r: Vec<(u16, Vec<u8>)>)
    ensures
        manufacturer_view(r@) == manufacturer_view(v@),
{
    let mut r: Vec<(u16, Vec<u8>)> = Vec::new();
    let mut i: usize = 0;
    while i < v.len()
        invariant
            i <= v.len(),
            manufacturer_view(r@) =~= manufacturer_view(v@).take(i as int),
        decreases v.len() - i,
    {
        let e = (v[i].0, copy_bytes(&v[i].1));
        let ghost before = r@;
        r.push(e);
        assert(manufacturer_view(r@) =~= manufacturer_view(before).push((e.0, e.1@)));
        assert(manufacturer_view(v@).take(i as int + 1) =~= manufacturer_view(v@).take(i as int).push(
            (e.0, e.1@),
        ));
        i = i + 1;
    }
    assert(manufacturer_view(v@).take(i as int) =~= manufacturer_view(v@));
    r
}

fn copy_service_data(v: &Vec<(String, Vec<u8>)>) -> (r: Vec<(String, Vec<u8>)>)
    ensures
        service_data_view(r@) == service_data_view(v@),
{
    let mut r: Vec<(String, Vec<u8>)> = Vec::new();
    let mut i: usize = 0;
    while i < v.len()
        invariant
            i <= v.len(),
            service_data_view(r@) =~= service_data_view(v@).take(i as int),
        decreases v.len() - i,
    {
        let e = (v[i].0.clone(), copy_bytes(&v[i].1));
        let ghost before = r@;
        r.push(e);
        assert(service_data_view(r@) =~= service_data_view(before).push((e.0@, e.1@)));
        assert(service_data_view(v@).take(i as int + 1) =~= service_data_view(v@).take(
            i as int,
        ).push((e.0@, e.1@)));
        i = i + 1;
    }
    assert(service_data_view(v@).take(i as int) =~= service_data_view(v@));
    r
}

impl DeviceInfo {
    /// Company identifiers and service UUIDs each occur at most once, as in
    /// the maps that the platform reports them in.
    pub open spec fn wf(&self) -> bool {
        &&& distinct_ids(self@.manufacturer_data)
        &&& distinct_keys(self@.service_data)
    }

    /// A record holding exactly the given values.
    pub fn new(
        address: String,
        name: Option<String>,
        rssi: Option<i16>,
        services: Vec<String>,
        manufacturer_data: Vec<(u16, Vec<u8>)>,
        service_data: Vec<(String, Vec<u8>)>,
        tx_power_level: Option<i16>,
        paired: bool,
        can_pair: bool,
        pairing_status: String,
    ) -> (r: DeviceInfo)
        requires
            distinct_ids(manufacturer_view(manufacturer_data@)),
            distinct_keys(service_data_view(service_data@)),
        ensures
            r.wf(),
            r@ == (DeviceInfoView {
                address: address@,
                name: opt_text_view(name),
                rssi,
                services: texts_view(services@),
                manufacturer_data: manufacturer_view(manufacturer_data@),
                service_data: service_data_view(service_data@),
                tx_power_level,
                paired,
                can_pair,
                pairing_status: pairing_status@,
            }),
    {
        DeviceInfo {
            address,
            name,
            rssi,
            services,
            manufacturer_data,
            service_data,
            tx_power_level,
            paired,
            can_pair,
            pairing_status,
        }
    }

    /// A record for a device whose pairing state is not known yet: not
    /// paired, not pairable, status `"unknown"`.
    pub fn with_unknown_pairing(
        address: String,
        name: Option<String>,
        rssi: Option<i16>,
        services: Vec<String>,
        manufacturer_data: Vec<(u16, Vec<u8>)>,
        service_data: Vec<(String, Vec<u8>)>,
        tx_power_level: Option<i16>,
    ) -> (r: DeviceInfo)
        requires
            distinct_ids(manufacturer_view(manufacturer_data@)),
            distinct_keys(service_data_view(service_data@)),
        ensures
            r.wf(),
            r@ == (DeviceInfoView {
                address: address@,
                name: opt_text_view(name),
                rssi,
                services: texts_view(services@),
                manufacturer_data: manufacturer_view(manufacturer_data@),
                service_data: service_data_view(service_data@),
                tx_power_level,
                paired: false,
                can_pair: false,
                pairing_status: "unknown"@,
            }),
    {
        DeviceInfo::new(
            address,
            name,
            rssi,
            services,
            manufacturer_data,
            service_data,
            tx_power_level,
            false,
            false,
            String::from_str("unknown"),
        )
    }

    /// A copy of the record.
    pub fn duplicate(&self) -> (r: DeviceInfo)
        ensures
            r@ == self@,
    {
        DeviceInfo {
            address: self.address.clone(),
            name: copy_opt_text(&self.name),
            rssi: self.rssi,
            services: copy_texts(&self.services),
            manufacturer_data: copy_manufacturer(&self.manufacturer_data),
            service_data: copy_service_data(&self.service_data),
            tx_power_level: self.tx_power_level,
            paired: self.paired,
            can_pair: self.can_pair,
            pairing_status: self.pairing_status.clone(),
        }
    }

    /// The dictionary form of the record.
    pub fn to_dictionary(&self) -> (r: Dictionary)
        requires
            self.wf(),
        ensures
            r@ == device_dict(self@),
    {
        let mut d = Dictionary::new();
        d.push_text_key("address", DictValue::Text(self.address.clone()));
        match &self.name {
            Some(name) => d.push_text_key("name", DictValue::Text(name.clone())),
            None => d.push_text_key("name", DictValue::Text(String::new())),
        }
        match self.rssi {
            Some(rssi) => d.push_text_key("rssi", DictValue::Int(rssi as i64)),
            None => d.push_text_key("rssi", DictValue::Nil),
        }
        d.push_text_key("services", DictValue::TextList(copy_texts(&self.services)));
        d.push_text_key("service_uuids", DictValue::TextList(copy_texts(&self.services)));
        d.push_text_key("uuids", DictValue::TextList(copy_texts(&self.services)));

        let mut manufacturer = Dictionary::new();
        let mut i: usize = 0;
        while i < self.manufacturer_data.len()
            invariant
                i <= self.manufacturer_data.len(),
                manufacturer@ =~= manufacturer_dict(self@.manufacturer_data).take(i as int),
            decreases self.manufacturer_data.len() - i,
        {
            let id = self.manufacturer_data[i].0;
            let bytes = copy_bytes(&self.manufacturer_data[i].1);
            manufacturer.push_int_key(id as i64, DictValue::Bytes(bytes));
            assert(manufacturer_dict(self@.manufacturer_data).take(i as int + 1)
                =~= manufacturer_dict(self@.manufacturer_data).take(i as int).push(
                int_entry(id as i64, DictValueView::Bytes(bytes@)),
            ));
            i = i + 1;
        }
        assert(manufacturer_dict(self@.manufacturer_data).take(i as int) =~= manufacturer_dict(
            self@.manufacturer_data,
        ));
        proof {
            lemma_dict_value_view(manufacturer);
        }
        d.push_text_key("manufacturer_data", DictValue::Dict(manufacturer));

        let mut service_data = Dictionary::new();
        let mut j: usize = 0;
        while j < self.service_data.len()
            invariant
                j <= self.service_data.len(),
                service_data@ =~= service_data_dict(self@.service_data).take(j as int),
            decreases self.service_data.len() - j,
        {
            let bytes = copy_bytes(&self.service_data[j].1);
            service_data.push_text_key(self.service_data[j].0.as_str(), DictValue::Bytes(bytes));
            assert(service_data_dict(self@.service_data).take(j as int + 1) =~= service_data_dict(
                self@.service_data,
            ).take(j as int).push(text_entry(self.service_data@[j as int].0@, DictValueView::Bytes(bytes@))));
            j = j + 1;
        }
        assert(service_data_dict(self@.service_data).take(j as int) =~= service_data_dict(
            self@.service_data,
        ));
        proof {
            lemma_dict_value_view(service_data);
        }
        d.push_text_key("service_data", DictValue::Dict(service_data));

        match self.tx_power_level {
            Some(tx) => d.push_text_key("tx_power_level", DictValue::Int(tx as i64)),
            None => d.push_text_key("tx_power_level", DictValue::Nil),
        }
        d.push_text_key("paired", DictValue::Bool(self.paired));
        d.push_text_key("can_pair", DictValue::Bool(self.can_pair));
        d.push_text_key("pairing_status", DictValue::Text(self.pairing_status.clone()));
        assert(d@ =~= device_dict(self@));
        d
    }
}

/// The dictionary of a device lists its advertised services identically
/// under the keys `services`, `service_uuids` and `uuids`.
pub proof fn lemma_device_dict_service_aliases(d: DeviceInfoView)
    ensures
        device_dict(d)[3].1 == DictValueView::TextList(d.services),
        device_dict(d)[4].1 == device_dict(d)[3].1,
        device_dict(d)[5].1 == device_dict(d)[3].1,
        device_dict(d)[3].0 == DictKeyView::Text("services"@),
        device_dict(d)[4].0 == DictKeyView::Text("service_uuids"@),
        device_dict(d)[5].0 == DictKeyView::Text("uuids"@),
{
}

/// The name and, where known, the address of a Bluetooth adapter.
#[derive(Debug, PartialEq, Eq)]
pub struct AdapterInfo {
    pub name: String,
    pub address: Option<String>,
}

impl AdapterInfo {
    /// An adapter record holding exactly the given values.
    pub fn new(name: String, address: Option<String>) -> (r: AdapterInfo)
        ensures
            r.name@ == name@,
            opt_text_view(r.address) == opt_text_view(address),
    {
        AdapterInfo { name, address }
    }

    /// The dictionary form: the name, and the address or nil.
    pub fn to_dictionary(&self) -> (r: Dictionary)
        ensures
            r@ == seq![
                text_entry("name"@, DictValueView::Text(self.name@)),
                text_entry("address"@, opt_text_value(opt_text_view(self.address))),
            ],
    {
        let mut d = Dictionary::new();
        d.push_text_key("name", DictValue::Text(self.name.clone()));
        match &self.address {
            Some(address) => d.push_text_key("address", DictValue::Text(address.clone())),
            None => d.push_text_key("address", DictValue::Nil),
        }
        assert(d@ =~= seq![
            text_entry("name"@, DictValueView::Text(self.name@)),
            text_entry("address"@, opt_text_value(opt_text_view(self.address))),
        ]);
        d
    }
}

/// An event that a device's background work reports to the main thread.
#[derive(Debug, PartialEq, Eq)]
pub enum BleDeviceEvent {
    /// The device connected.
    ConnectSuccess { device_address: String },
    /// Connecting failed.
    ConnectFailed { device_address: String, error: String },
    /// The device disconnected.
    Disconnected { device_address: String },
    /// Service discovery finished.
    ServicesDiscovered { device_address: String, services: Vec<BleServiceInfo> },
    /// Service discovery failed.
    ServiceDiscoveryFailed { device_address: String, error: String },
    /// A characteristic was read.
    CharacteristicRead { device_address: String, char_uuid: String, data: Vec<u8> },
    /// Reading a characteristic failed.
    CharacteristicReadFailed { device_address: String, char_uuid: String, error: String },
    /// A characteristic was written.
    CharacteristicWritten { device_address: String, char_uuid: String },
    /// Writing a characteristic failed.
    CharacteristicWriteFailed { device_address: String, char_uuid: String, error: String },
    /// A subscribed characteristic sent a notification.
    CharacteristicNotified { device_address: String, char_uuid: String, data: Vec<u8> },
    /// Subscribing succeeded.
    SubscribeSuccess { device_address: String, char_uuid: String },
    /// Subscribing failed.
    SubscribeFailed { device_address: String, char_uuid: String, error: String },
    /// Unsubscribing succeeded.
    UnsubscribeSuccess { device_address: String, char_uuid: String },
    /// Unsubscribing failed.
    UnsubscribeFailed { device_address: String, char_uuid: String, error: String },
}

/// The mathematical form of a device event.
pub enum DeviceEventView {
    ConnectSuccess { device_address: Seq<char> },
    ConnectFailed { device_address: Seq<char>, error: Seq<char> },
    Disconnected { device_address: Seq<char> },
    ServicesDiscovered { device_address: Seq<char>, services: Seq<ServiceInfoView> },
    ServiceDiscoveryFailed { device_address: Seq<char>, error: Seq<char> },
    CharacteristicRead { device_address: Seq<char>, char_uuid: Seq<char>, data: Seq<u8> },
    CharacteristicReadFailed { device_address: Seq<char>, char_uuid: Seq<char>, error: Seq<char> },
    CharacteristicWritten { device_address: Seq<char>, char_uuid: Seq<char> },
    CharacteristicWriteFailed { device_address: Seq<char>, char_uuid: Seq<char>, error: Seq<char> },
    CharacteristicNotified { device_address: Seq<char>, char_uuid: Seq<char>, data: Seq<u8> },
    SubscribeSuccess { device_address: Seq<char>, char_uuid: Seq<char> },
    SubscribeFailed { device_address: Seq<char>, char_uuid: Seq<char>, error: Seq<char> },
    UnsubscribeSuccess { device_address: Seq<char>, char_uuid: Seq<char> },
    UnsubscribeFailed { device_address: Seq<char>, char_uuid: Seq<char>, error: Seq<char> },
}

impl View for BleDeviceEvent {
    type V = DeviceEventView;

    open spec fn view(&self) -> DeviceEventView {
        match self {
            BleDeviceEvent::ConnectSuccess { device_address } => DeviceEventView::ConnectSuccess { device_address: device_address@ },
            BleDeviceEvent::ConnectFailed { device_address, error } => DeviceEventView::ConnectFailed { device_address: device_address@, error: error@ },
            BleDeviceEvent::Disconnected { device_address } => DeviceEventView::Disconnected { device_address: device_address@ },
            BleDeviceEvent::ServicesDiscovered { device_address, services } => DeviceEventView::ServicesDiscovered { device_address: device_address@, services: service_infos_view(services@) },
            BleDeviceEvent::ServiceDiscoveryFailed { device_address, error } => DeviceEventView::ServiceDiscoveryFailed { device_address: device_address@, error: error@ },
            BleDeviceEvent::CharacteristicRead { device_address, char_uuid, data } => DeviceEventView::CharacteristicRead { device_address: device_address@, char_uuid: char_uuid@, data: data@ },
            BleDeviceEvent::CharacteristicReadFailed { device_address, char_uuid, error } => DeviceEventView::CharacteristicReadFailed { device_address: device_address@, char_uuid: char_uuid@, error: error@ },
            BleDeviceEvent::CharacteristicWritten { device_address, char_uuid } => DeviceEventView::CharacteristicWritten { device_address: device_address@, char_uuid: char_uuid@ },
            BleDeviceEvent::CharacteristicWriteFailed { device_address, char_uuid, error } => DeviceEventView::CharacteristicWriteFailed { device_address: device_address@, char_uuid: char_uuid@, error: error@ },
            BleDeviceEvent::CharacteristicNotified { device_address, char_uuid, data } => DeviceEventView::CharacteristicNotified { device_address: device_address@, char_uuid: char_uuid@, data: data@ },
            BleDeviceEvent::SubscribeSuccess { device_address, char_uuid } => DeviceEventView::SubscribeSuccess { device_address: device_address@, char_uuid: char_uuid@ },
            BleDeviceEvent::SubscribeFailed { device_address, char_uuid, error } => DeviceEventView::SubscribeFailed { device_address: device_address@, char_uuid: char_uuid@, error: error@ },
            BleDeviceEvent::UnsubscribeSuccess { device_address, char_uuid } => DeviceEventView::UnsubscribeSuccess { device_address: device_address@, char_uuid: char_uuid@ },
            BleDeviceEvent::UnsubscribeFailed { device_address, char_uuid, error } => DeviceEventView::UnsubscribeFailed { device_address: device_address@, char_uuid: char_uuid@, error: error@ },
        }
    }
}
} // verus!
