//! GATT services and characteristics: the records that discovery produces,
//! the property flags that a characteristic declares, and their dictionary
//! form.
use vstd::prelude::*;
use crate::dictionary::{
    dicts_view, lemma_dict_value_view, lemma_list_value_view, text_entry, DictValue,
    DictValueView, Dictionary, DictKeyView,
};

verus! {

/// Characteristic property bit for reads (Bluetooth Core, GATT
/// "Characteristic Properties").
pub const PROPERTY_READ: u8 = 0x02;

/// Characteristic property bit for writes without response.
pub const PROPERTY_WRITE_WITHOUT_RESPONSE: u8 = 0x04;

/// Characteristic property bit for writes with response.
pub const PROPERTY_WRITE: u8 = 0x08;

/// Characteristic property bit for notifications.
pub const PROPERTY_NOTIFY: u8 = 0x10;

/// Characteristic property bit for indications.
pub const PROPERTY_INDICATE: u8 = 0x20;

/// The operations that a characteristic supports.
#[derive(Clone, Copy, Debug, PartialEq, Eq)]
pub struct CharacteristicProperties {
    pub read: bool,
    pub write: bool,
    pub write_without_response: bool,
    pub notify: bool,
    pub indicate: bool,
}

/// A characteristic as the platform reports it: its UUID, the UUID of its
/// service (both in their textual form) and its property bits.
#[derive(Debug, PartialEq, Eq)]
pub struct CharacteristicRecord {
    pub uuid: String,
    pub service_uuid: String,
    pub properties: u8,
}

/// A service as the platform reports it after discovery.
#[derive(Debug, PartialEq, Eq)]
pub struct DiscoveredService {
    pub uuid: String,
    pub characteristics: Vec<CharacteristicRecord>,
}

/// The description of a characteristic that scripts receive.
#[derive(Debug, PartialEq, Eq)]
pub struct BleCharacteristicInfo {
    pub uuid: String,
    pub properties: CharacteristicProperties,
}

/// The description of a service that scripts receive.
#[derive(Debug, PartialEq, Eq)]
pub struct BleServiceInfo {
    pub uuid: String,
    pub characteristics: Vec<BleCharacteristicInfo>,
}

/// The mathematical form of a characteristic record.
pub struct CharacteristicRecordView {
    pub uuid: Seq<char>,
    pub service_uuid: Seq<char>,
    pub properties: u8,
}

/// The mathematical form of a characteristic description.
pub struct CharacteristicInfoView {
    pub uuid: Seq<char>,
    pub properties: CharacteristicProperties,
}

/// The mathematical form of a service description.
pub struct ServiceInfoView {
    pub uuid: Seq<char>,
    pub characteristics: Seq<CharacteristicInfoView>,
}

/// The mathematical form of a discovered service.
pub struct DiscoveredServiceView {
    pub uuid: Seq<char>,
    pub characteristics: Seq<CharacteristicRecordView>,
}

impl View for CharacteristicRecord {
    type V = CharacteristicRecordView;

    open spec fn view(&self) -> CharacteristicRecordView {
        CharacteristicRecordView {
            uuid: self.uuid@,
            service_uuid: self.service_uuid@,
            properties: self.properties,
        }
    }
}

impl View for BleCharacteristicInfo {
    type V = CharacteristicInfoView;

    open spec fn view(&self) -> CharacteristicInfoView {
        CharacteristicInfoView { uuid: self.uuid@, properties: self.properties }
    }
}

/// The views of a list of characteristic descriptions.
pub open spec fn char_infos_view(v: Seq<BleCharacteristicInfo>) -> Seq<CharacteristicInfoView> {
    v.map_values(|c: BleCharacteristicInfo| c@)
}

/// The views of a list of characteristic records.
pub open spec fn records_view(v: Seq<CharacteristicRecord>) -> Seq<CharacteristicRecordView> {
    v.map_values(|c: CharacteristicRecord| c@)
}

impl View for BleServiceInfo {
    type V = ServiceInfoView;

    open spec fn view(&self) -> ServiceInfoView {
        ServiceInfoView { uuid: self.uuid@, characteristics: char_infos_view(self.characteristics@) }
    }
}

impl View for DiscoveredService {
    type V = DiscoveredServiceView;

    open spec fn view(&self) -> DiscoveredServiceView {
        DiscoveredServiceView {
            uuid: self.uuid@,
            characteristics: records_view(self.characteristics@),
        }
    }
}

/// The views of a list of service descriptions.
pub open spec fn service_infos_view(v: Seq<BleServiceInfo>) -> Seq<ServiceInfoView> {
    v.map_values(|s: BleServiceInfo| s@)
}

/// The views of a list of discovered services.
pub open spec fn discovered_view(v: Seq<DiscoveredService>) -> Seq<DiscoveredServiceView> {
    v.map_values(|s: DiscoveredService| s@)
}

/// The properties that a set of property bits declares.
pub open spec fn properties_from_bits_spec(bits: u8) -> CharacteristicProperties {
    CharacteristicProperties {
        read: bits & PROPERTY_READ != 0,
        write: bits & PROPERTY_WRITE != 0,
        write_without_response: bits & PROPERTY_WRITE_WITHOUT_RESPONSE != 0,
        notify: bits & PROPERTY_NOTIFY != 0,
        indicate: bits & PROPERTY_INDICATE != 0,
    }
}

/// The dictionary form of a set of properties.
pub open spec fn properties_dict(p: CharacteristicProperties) -> Seq<(DictKeyView, DictValueView)> {
    seq![
        text_entry("read"@, DictValueView::Bool(p.read)),
        text_entry("write"@, DictValueView::Bool(p.write)),
        text_entry("write_without_response"@, DictValueView::Bool(p.write_without_response)),
        text_entry("notify"@, DictValueView::Bool(p.notify)),
        text_entry("indicate"@, DictValueView::Bool(p.indicate)),
    ]
}

/// The dictionary form of a characteristic description.
pub open spec fn characteristic_dict(c: CharacteristicInfoView) -> Seq<(DictKeyView, DictValueView)> {
    seq![
        text_entry("uuid"@, DictValueView::Text(c.uuid)),
        text_entry("properties"@, DictValueView::Dict(properties_dict(c.properties))),
    ]
}

/// The dictionary form of a service description.
pub open spec fn service_dict(s: ServiceInfoView) -> Seq<(DictKeyView, DictValueView)> {
    seq![
        text_entry("uuid"@, DictValueView::Text(s.uuid)),
        text_entry(
            "characteristics"@,
            DictValueView::List(s.characteristics.map_values(|c: CharacteristicInfoView| characteristic_dict(c))),
        ),
    ]
}

impl CharacteristicProperties {
    /// The properties that a set of property bits declares.
    pub fn from_bits(bits: u8) -> (r: CharacteristicProperties)
        ensures
            r == properties_from_bits_spec(bits),
    {
        CharacteristicProperties {
            read: bits & PROPERTY_READ != 0,
            write: bits & PROPERTY_WRITE != 0,
            write_without_response: bits & PROPERTY_WRITE_WITHOUT_RESPONSE != 0,
            notify: bits & PROPERTY_NOTIFY != 0,
            indicate: bits & PROPERTY_INDICATE != 0,
        }
    }

    /// The dictionary form: one boolean entry per property.
    pub fn to_dictionary(&self) -> (r: Dictionary)
        ensures
            r@ == properties_dict(*self),
    {
        let mut d = Dictionary::new();
        d.push_text_key("read", DictValue::Bool(self.read));
        d.push_text_key("write", DictValue::Bool(self.write));
        d.push_text_key("write_without_response", DictValue::Bool(self.write_without_response));
        d.push_text_key("notify", DictValue::Bool(self.notify));
        d.push_text_key("indicate", DictValue::Bool(self.indicate));
        assert(d@ =~= properties_dict(*self));
        d
    }
}

impl CharacteristicRecord {
    /// A copy of the record.
    pub fn duplicate(&self) -> (r: CharacteristicRecord)
        ensures
            r@ == self@,
    {
        CharacteristicRecord {
            uuid: self.uuid.clone(),
            service_uuid: self.service_uuid.clone(),
            properties: self.properties,
        }
    }
}

impl BleCharacteristicInfo {
    /// A description with the given UUID and properties.
    pub fn new(uuid: String, properties: CharacteristicProperties) -> (r: BleCharacteristicInfo)
        ensures
            r@ == (CharacteristicInfoView { uuid: uuid@, properties }),
    {
        BleCharacteristicInfo { uuid, properties }
    }

    /// The description of a characteristic that the platform reported: its
    /// UUID and the properties that its property bits declare.
    pub fn from_record(record: &CharacteristicRecord) -> (r: BleCharacteristicInfo)
        ensures
            r@ == (CharacteristicInfoView {
                uuid: record.uuid@,
                properties: properties_from_bits_spec(record.properties),
            }),
    {
        BleCharacteristicInfo::new(
            record.uuid.clone(),
            CharacteristicProperties::from_bits(record.properties),
        )
    }

    /// A copy of the description.
    pub fn duplicate(&self) -> (r: BleCharacteristicInfo)
        ensures
            r@ == self@,
    {
        BleCharacteristicInfo { uuid: self.uuid.clone(), properties: self.properties }
    }

    /// The dictionary form: the UUID and a nested dictionary of properties.
    pub fn to_dictionary(&self) -> (r: Dictionary)
        ensures
            r@ == characteristic_dict(self@),
    {
        let mut d = Dictionary::new();
        d.push_text_key("uuid", DictValue::Text(self.uuid.clone()));
        let props = self.properties.to_dictionary();
        proof {
            lemma_dict_value_view(props);
        }
        d.push_text_key("properties", DictValue::Dict(props));
        assert(d@ =~= characteristic_dict(self@));
        d
    }
}

impl BleServiceInfo {
    /// A description with the given UUID and characteristics.
    pub fn new(uuid: String, characteristics: Vec<BleCharacteristicInfo>) -> (r: BleServiceInfo)
        ensures
            r@ == (ServiceInfoView {
                uuid: uuid@,
                characteristics: char_infos_view(characteristics@),
            }),
    {
        BleServiceInfo { uuid, characteristics }
    }

    /// The description of a discovered service: its UUID and the
    /// description of each of its characteristics, in order.
    pub fn from_discovered(service: &DiscoveredService) -> (r: BleServiceInfo)
        ensures
            r@ == service_info_of(service@),
    {
        let mut chars: Vec<BleCharacteristicInfo> = Vec::new();
        let mut i: usize = 0;
        while i < service.characteristics.len()
            invariant
                i <= service.characteristics.len(),
                char_infos_view(chars@) =~= service_info_of(service@).characteristics.take(i as int),
            decreases service.characteristics.len() - i,
        {
            let c = BleCharacteristicInfo::from_record(&service.characteristics[i]);
            assert(c@ == service_info_of(service@).characteristics[i as int]);
            let ghost before = chars@;
            chars.push(c);
            assert(char_infos_view(chars@) =~= char_infos_view(before).push(c@));
            assert(service_info_of(service@).characteristics.take(i as int + 1)
                =~= service_info_of(service@).characteristics.take(i as int).push(c@));
            i = i + 1;
        }
        assert(service_info_of(service@).characteristics.take(i as int)
            =~= service_info_of(service@).characteristics);
        BleServiceInfo::new(service.uuid.clone(), chars)
    }

    /// A copy of the description.
    pub fn duplicate(&self) -> (r: BleServiceInfo)
        ensures
            r@ == self@,
    {
        let mut chars: Vec<BleCharacteristicInfo> = Vec::new();
        let mut i: usize = 0;
        while i < self.characteristics.len()
            invariant
                i <= self.characteristics.len(),
                char_infos_view(chars@) =~= char_infos_view(self.characteristics@).take(i as int),
            decreases self.characteristics.len() - i,
        {
            let c = self.characteristics[i].duplicate();
            let ghost before = chars@;
            chars.push(c);
            assert(char_infos_view(chars@) =~= char_infos_view(before).push(c@));
            assert(char_infos_view(self.characteristics@).take(i as int + 1) =~= char_infos_view(
                self.characteristics@,
            ).take(i as int).push(c@));
            i = i + 1;
        }
        assert(char_infos_view(self.characteristics@).take(i as int) =~= char_infos_view(
            self.characteristics@,
        ));
        BleServiceInfo { uuid: self.uuid.clone(), characteristics: chars }
    }

    /// The dictionary form: the UUID and the list of characteristic
    /// dictionaries.
    pub fn to_dictionary(&self) -> (r: Dictionary)
        ensures
            r@ == service_dict(self@),
    {
        let mut list: Vec<Dictionary> = Vec::new();
        let ghost target = self@.characteristics.map_values(
            |c: CharacteristicInfoView| characteristic_dict(c),
        );
        let mut i: usize = 0;
        while i < self.characteristics.len()
            invariant
                i <= self.characteristics.len(),
                target == self@.characteristics.map_values(
                    |c: CharacteristicInfoView| characteristic_dict(c),
                ),
                dicts_view(list@) =~= target.take(i as int),
            decreases self.characteristics.len() - i,
        {
            let d = self.characteristics[i].to_dictionary();
            let ghost before = list@;
            list.push(d);
            assert(dicts_view(list@) =~= dicts_view(before).push(d@));
            assert(target.take(i as int + 1) =~= target.take(i as int).push(d@));
            i = i + 1;
        }
        assert(target.take(i as int) =~= target);
        proof {
            lemma_list_value_view(list);
        }
        let mut d = Dictionary::new();
        d.push_text_key("uuid", DictValue::Text(self.uuid.clone()));
        d.push_text_key("characteristics", DictValue::List(list));
        assert(d@ =~= service_dict(self@));
        d
    }
}

/// The description of a discovered service.
pub open spec fn service_info_of(s: DiscoveredServiceView) -> ServiceInfoView {
    ServiceInfoView {
        uuid: s.uuid,
        characteristics: s.characteristics.map_values(
            |c: CharacteristicRecordView|
                CharacteristicInfoView {
                    uuid: c.uuid,
                    properties: properties_from_bits_spec(c.properties),
                },
        ),
    }
}

} // verus!
