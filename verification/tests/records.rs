use gdble::characteristic::{
    BleCharacteristicInfo, BleServiceInfo, CharacteristicProperties, CharacteristicRecord,
    DiscoveredService,
};
use gdble::dictionary::{DictKey, DictValue, Dictionary};
use gdble::error::BleError;
use gdble::types::{AdapterInfo, DeviceInfo};

fn key(d: &Dictionary, i: usize) -> String {
    match &d.entries[i].0 {
        DictKey::Text(s) => s.clone(),
        DictKey::Int(n) => n.to_string(),
    }
}

#[test]
fn device_info_unknown_pairing_defaults_are_non_blocking_placeholders() {
    let info = DeviceInfo::with_unknown_pairing(
        "AA:BB:CC:DD:EE:FF".to_string(),
        Some("Trainer".to_string()),
        Some(-42),
        vec!["1826".to_string()],
        Vec::new(),
        Vec::new(),
        None,
    );

    assert!(!info.paired);
    assert!(!info.can_pair);
    assert_eq!(info.pairing_status, "unknown");
}

#[test]
fn device_info_dictionary_lists_every_field() {
    let info = DeviceInfo::with_unknown_pairing(
        "AA:BB:CC:DD:EE:FF".to_string(),
        None,
        Some(-42),
        vec!["1826".to_string(), "180d".to_string()],
        vec![(0x004c, vec![1, 2])],
        vec![("fe95".to_string(), vec![9])],
        Some(4),
    );
    let d = info.to_dictionary();
    let keys: Vec<String> = (0..d.entries.len()).map(|i| key(&d, i)).collect();
    assert_eq!(
        keys,
        vec![
            "address",
            "name",
            "rssi",
            "services",
            "service_uuids",
            "uuids",
            "manufacturer_data",
            "service_data",
            "tx_power_level",
            "paired",
            "can_pair",
            "pairing_status"
        ]
    );
    assert_eq!(d.entries[0].1, DictValue::Text("AA:BB:CC:DD:EE:FF".to_string()));
    assert_eq!(d.entries[1].1, DictValue::Text(String::new()));
    assert_eq!(d.entries[2].1, DictValue::Int(-42));
    let services = DictValue::TextList(vec!["1826".to_string(), "180d".to_string()]);
    assert_eq!(d.entries[3].1, services);
    assert_eq!(d.entries[4].1, services);
    assert_eq!(d.entries[5].1, services);
    assert_eq!(
        d.entries[6].1,
        DictValue::Dict(Dictionary {
            entries: vec![(DictKey::Int(0x004c), DictValue::Bytes(vec![1, 2]))]
        })
    );
    assert_eq!(
        d.entries[7].1,
        DictValue::Dict(Dictionary {
            entries: vec![(DictKey::Text("fe95".to_string()), DictValue::Bytes(vec![9]))]
        })
    );
    assert_eq!(d.entries[8].1, DictValue::Int(4));
    assert_eq!(d.entries[9].1, DictValue::Bool(false));
    assert_eq!(d.entries[10].1, DictValue::Bool(false));
    assert_eq!(d.entries[11].1, DictValue::Text("unknown".to_string()));
}

#[test]
fn adapter_dictionary_has_nil_address_when_unknown() {
    let a = AdapterInfo::new("hci0".to_string(), None);
    let d = a.to_dictionary();
    assert_eq!(key(&d, 0), "name");
    assert_eq!(d.entries[0].1, DictValue::Text("hci0".to_string()));
    assert_eq!(key(&d, 1), "address");
    assert_eq!(d.entries[1].1, DictValue::Nil);
    let b = AdapterInfo::new("hci0".to_string(), Some("00:11".to_string()));
    assert_eq!(b.to_dictionary().entries[1].1, DictValue::Text("00:11".to_string()));
}

#[test]
fn properties_follow_the_gatt_bits() {
    let p = CharacteristicProperties::from_bits(0x02 | 0x10);
    assert!(p.read && p.notify);
    assert!(!p.write && !p.write_without_response && !p.indicate);
    let all = CharacteristicProperties::from_bits(0xff);
    assert!(all.read && all.write && all.write_without_response && all.notify && all.indicate);
    let w = CharacteristicProperties::from_bits(0x08 | 0x04 | 0x20);
    assert!(w.write && w.write_without_response && w.indicate && !w.read && !w.notify);
}

#[test]
fn service_dictionary_nests_characteristics() {
    let discovered = DiscoveredService {
        uuid: "180d".to_string(),
        characteristics: vec![CharacteristicRecord {
            uuid: "2a37".to_string(),
            service_uuid: "180d".to_string(),
            properties: 0x10,
        }],
    };
    let info = BleServiceInfo::from_discovered(&discovered);
    assert_eq!(info.uuid, "180d");
    assert_eq!(info.characteristics.len(), 1);
    assert_eq!(info.characteristics[0].uuid, "2a37");
    assert!(info.characteristics[0].properties.notify);
    let d = info.to_dictionary();
    assert_eq!(key(&d, 0), "uuid");
    assert_eq!(key(&d, 1), "characteristics");
    match &d.entries[1].1 {
        DictValue::List(list) => {
            assert_eq!(list.len(), 1);
            assert_eq!(list[0], BleCharacteristicInfo::new("2a37".to_string(), info.characteristics[0].properties).to_dictionary());
            assert_eq!(key(&list[0], 1), "properties");
        }
        other => panic!("unexpected {:?}", other),
    }
}

#[test]
fn error_messages_codes_and_retry() {
    let e = BleError::ConnectionFailed("timeout".to_string());
    assert_eq!(e.to_string(), "连接失败: timeout");
    assert_eq!(e.error_code(), "CONNECTION_FAILED");
    assert!(e.is_retryable());
    assert_eq!(BleError::NotConnected.to_string(), "设备未连接，请先连接设备");
    assert_eq!(BleError::NotConnected.error_code(), "NOT_CONNECTED");
    assert!(!BleError::NotConnected.is_retryable());
    assert_eq!(
        BleError::AdapterNotFound.to_string(),
        "未找到蓝牙适配器，请确保系统蓝牙已启用"
    );
    assert!(BleError::Timeout("x".to_string()).is_retryable());
    assert!(BleError::OperationFailed("x".to_string()).is_retryable());
    assert!(!BleError::ReadFailed("x".to_string()).is_retryable());
    assert_eq!(BleError::InternalError("x".to_string()).error_code(), "INTERNAL_ERROR");
    assert_eq!(BleError::ScanFailed("y".to_string()).to_string(), "扫描失败: y");
    assert_eq!(BleError::InvalidUuid("u".to_string()).to_string(), "无效的 UUID: u");
}

#[test]
fn errors_are_told_apart_by_message_and_code() {
    let errors = vec![
        BleError::AdapterNotFound,
        BleError::DeviceNotFound("a".to_string()),
        BleError::ConnectionFailed("a".to_string()),
        BleError::OperationFailed("a".to_string()),
        BleError::NotConnected,
        BleError::InvalidUuid("a".to_string()),
        BleError::ServiceNotFound("a".to_string()),
        BleError::CharacteristicNotFound("a".to_string()),
        BleError::ScanFailed("a".to_string()),
        BleError::InitializationFailed("a".to_string()),
        BleError::ReadFailed("a".to_string()),
        BleError::WriteFailed("a".to_string()),
        BleError::SubscribeFailed("a".to_string()),
        BleError::UnsubscribeFailed("a".to_string()),
        BleError::ServiceDiscoveryFailed("a".to_string()),
        BleError::PermissionDenied("a".to_string()),
        BleError::Timeout("a".to_string()),
        BleError::InternalError("a".to_string()),
    ];
    for (i, a) in errors.iter().enumerate() {
        for (j, b) in errors.iter().enumerate() {
            assert_eq!(i == j, a.to_string() == b.to_string());
            assert_eq!(i == j, a.error_code() == b.error_code());
        }
    }
    assert_ne!(
        BleError::ReadFailed("a".to_string()).to_string(),
        BleError::ReadFailed("b".to_string()).to_string()
    );
}
