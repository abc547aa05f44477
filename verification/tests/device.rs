use gdble::characteristic::{CharacteristicRecord, DiscoveredService};
use gdble::device::{BleDevice, CharEventKind, DeviceAction};
use gdble::types::BleDeviceEvent;

const SVC: &str = "0000180d-0000-1000-8000-00805f9b34fb";
const HR: &str = "00002a37-0000-1000-8000-00805f9b34fb";

fn record(uuid: &str, service: &str, bits: u8) -> CharacteristicRecord {
    CharacteristicRecord { uuid: uuid.to_string(), service_uuid: service.to_string(), properties: bits }
}

fn connected_device() -> BleDevice {
    let mut d = BleDevice::new("AA:BB".to_string(), "Sensor".to_string());
    let ev = d.on_connect_result(Ok(()));
    assert_eq!(ev, BleDeviceEvent::ConnectSuccess { device_address: "AA:BB".to_string() });
    d
}

fn discovered() -> Vec<DiscoveredService> {
    vec![DiscoveredService {
        uuid: SVC.to_uppercase(),
        characteristics: vec![record(&HR.to_uppercase(), &SVC.to_uppercase(), 0x12)],
    }]
}

#[test]
fn operations_on_a_disconnected_device_fail() {
    let mut d = BleDevice::new("AA:BB".to_string(), "Sensor".to_string());
    assert!(!d.is_connected());
    let expected = |op: &str| DeviceAction::OperationFailed {
        operation: op.to_string(),
        error: "设备未连接，请先连接设备".to_string(),
    };
    assert_eq!(d.read_characteristic(SVC, HR, &vec![]), expected("read_characteristic"));
    assert_eq!(d.write_characteristic(SVC, HR, &vec![1], true, &vec![]), expected("write_characteristic"));
    assert_eq!(d.discover_services(), expected("discover_services"));
    assert_eq!(d.subscribe_characteristic(SVC, HR, false, &vec![]).action, expected("subscribe_characteristic"));
    assert_eq!(d.unsubscribe_characteristic(SVC, HR, &vec![]), expected("unsubscribe_characteristic"));
}

#[test]
fn failed_connection_reports_the_reason() {
    let mut d = BleDevice::new("AA:BB".to_string(), "Sensor".to_string());
    let ev = d.on_connect_result(Err("out of range".to_string()));
    assert_eq!(
        ev,
        BleDeviceEvent::ConnectFailed {
            device_address: "AA:BB".to_string(),
            error: "连接失败: out of range".to_string()
        }
    );
    assert!(!d.is_connected());
}

#[test]
fn discovered_characteristic_is_found_case_insensitively() {
    let mut d = connected_device();
    let ev = d.on_services_discovered(&discovered());
    match ev {
        BleDeviceEvent::ServicesDiscovered { device_address, services } => {
            assert_eq!(device_address, "AA:BB");
            assert_eq!(services.len(), 1);
            assert_eq!(services[0].characteristics[0].uuid, HR.to_uppercase());
        }
        other => panic!("unexpected {:?}", other),
    }
    assert_eq!(d.get_services().len(), 1);
    // The cache holds lower-case keys, so a lower-case lookup finds it with
    // an empty peripheral list.
    let found = d.find_characteristic(SVC, HR, &vec![]);
    assert_eq!(found, Some(record(&HR.to_uppercase(), &SVC.to_uppercase(), 0x12)));
    match d.read_characteristic(SVC, HR, &vec![]) {
        DeviceAction::Read { characteristic, char_uuid } => {
            assert_eq!(characteristic.uuid, HR.to_uppercase());
            assert_eq!(char_uuid, HR);
        }
        other => panic!("unexpected {:?}", other),
    }
}

#[test]
fn missing_characteristic_is_reported() {
    let d = connected_device();
    let action = d.read_characteristic(SVC, HR, &vec![]);
    assert_eq!(
        action,
        DeviceAction::Report(BleDeviceEvent::CharacteristicReadFailed {
            device_address: "AA:BB".to_string(),
            char_uuid: HR.to_string(),
            error: format!("未找到特征值 UUID: {} in service {}", HR, SVC),
        })
    );
    assert_eq!(
        d.char_not_found_event("c", "s", CharEventKind::Unsubscribe),
        BleDeviceEvent::UnsubscribeFailed {
            device_address: "AA:BB".to_string(),
            char_uuid: "c".to_string(),
            error: "未找到特征值 UUID: c in service s".to_string(),
        }
    );
}

#[test]
fn peripheral_list_is_searched_when_the_cache_misses() {
    let d = connected_device();
    let list = vec![record("other", SVC, 0), record(&HR.to_uppercase(), &SVC.to_uppercase(), 0x08), record(HR, SVC, 0x02)];
    let found = d.find_characteristic(SVC, HR, &list);
    assert_eq!(found, Some(record(&HR.to_uppercase(), &SVC.to_uppercase(), 0x08)));
    match d.write_characteristic(SVC, HR, &vec![1, 2], false, &list) {
        DeviceAction::Write { characteristic, char_uuid, data, with_response } => {
            assert_eq!(characteristic.properties, 0x08);
            assert_eq!(char_uuid, HR);
            assert_eq!(data, vec![1, 2]);
            assert!(!with_response);
        }
        other => panic!("unexpected {:?}", other),
    }
}

#[test]
fn subscription_is_reserved_once() {
    let mut d = connected_device();
    d.on_services_discovered(&discovered());
    let first = d.subscribe_characteristic(SVC, HR, false, &vec![]);
    assert!(!first.abort_dispatcher);
    assert_eq!(first.start_dispatcher, Some(HR.to_string()));
    assert!(matches!(first.action, DeviceAction::Subscribe { .. }));
    let second = d.subscribe_characteristic(SVC, &HR.to_uppercase(), false, &vec![]);
    assert_eq!(second.action, DeviceAction::Nothing);
    assert_eq!(second.start_dispatcher, None);
}

#[test]
fn finished_dispatcher_is_restarted() {
    let mut d = connected_device();
    d.on_services_discovered(&discovered());
    let list = vec![record("2a38", SVC, 0x10)];
    let first = d.subscribe_characteristic(SVC, HR, false, &vec![]);
    assert!(first.start_dispatcher.is_some());
    let running = d.subscribe_characteristic(SVC, "2a38", false, &list);
    assert!(!running.abort_dispatcher);
    assert_eq!(running.start_dispatcher, None);
    d.unsubscribe_characteristic(SVC, "2a38", &list);
    let restarted = d.subscribe_characteristic(SVC, "2a38", true, &list);
    assert!(restarted.abort_dispatcher);
    assert_eq!(restarted.start_dispatcher, Some("2a38".to_string()));
}

#[test]
fn notifications_are_routed_only_while_subscribed() {
    let mut d = connected_device();
    d.on_services_discovered(&discovered());
    assert_eq!(d.on_notification(HR.to_string(), vec![7]), None);
    d.subscribe_characteristic(SVC, HR, false, &vec![]);
    assert_eq!(
        d.on_notification(HR.to_uppercase(), vec![7]),
        Some(BleDeviceEvent::CharacteristicNotified {
            device_address: "AA:BB".to_string(),
            char_uuid: HR.to_uppercase(),
            data: vec![7],
        })
    );
    let action = d.unsubscribe_characteristic(SVC, HR, &vec![]);
    assert!(matches!(action, DeviceAction::Unsubscribe { .. }));
    assert_eq!(d.on_notification(HR.to_string(), vec![7]), None);
}

#[test]
fn failed_subscription_can_be_retried() {
    let mut d = connected_device();
    d.on_services_discovered(&discovered());
    d.subscribe_characteristic(SVC, HR, false, &vec![]);
    let ev = d.on_subscribe_result(HR.to_string(), HR, Err("busy".to_string()));
    assert_eq!(
        ev,
        BleDeviceEvent::SubscribeFailed {
            device_address: "AA:BB".to_string(),
            char_uuid: HR.to_string(),
            error: "订阅通知失败: busy".to_string(),
        }
    );
    let again = d.subscribe_characteristic(SVC, HR, false, &vec![]);
    assert!(matches!(again.action, DeviceAction::Subscribe { .. }));
}

#[test]
fn subscription_to_unknown_characteristic_is_released() {
    let mut d = connected_device();
    let plan = d.subscribe_characteristic(SVC, HR, false, &vec![]);
    assert!(matches!(plan.action, DeviceAction::Report(BleDeviceEvent::SubscribeFailed { .. })));
    assert_eq!(d.on_notification(HR.to_string(), vec![1]), None);
    let list = vec![record(HR, SVC, 0x10)];
    let retry = d.subscribe_characteristic(SVC, HR, false, &list);
    assert!(matches!(retry.action, DeviceAction::Subscribe { .. }));
}

#[test]
fn stream_end_disconnects_and_forgets_subscriptions() {
    let mut d = connected_device();
    d.on_services_discovered(&discovered());
    d.subscribe_characteristic(SVC, HR, false, &vec![]);
    let ev = d.on_notification_stream_end();
    assert_eq!(ev, BleDeviceEvent::Disconnected { device_address: "AA:BB".to_string() });
    assert!(!d.is_connected());
    assert_eq!(d.on_notification(HR.to_string(), vec![1]), None);
}

#[test]
fn stream_failure_releases_the_reservation() {
    let mut d = connected_device();
    d.on_services_discovered(&discovered());
    d.subscribe_characteristic(SVC, HR, false, &vec![]);
    let ev = d.on_notification_stream_failed(HR, "no stream");
    assert_eq!(
        ev,
        BleDeviceEvent::SubscribeFailed {
            device_address: "AA:BB".to_string(),
            char_uuid: HR.to_string(),
            error: "notifications() failed: no stream".to_string(),
        }
    );
    assert_eq!(d.on_notification(HR.to_string(), vec![1]), None);
}

#[test]
fn disconnect_clears_subscriptions_then_reports() {
    let mut d = connected_device();
    d.on_services_discovered(&discovered());
    d.subscribe_characteristic(SVC, HR, false, &vec![]);
    assert!(d.disconnect());
    assert!(!d.disconnect());
    assert_eq!(d.on_notification(HR.to_string(), vec![1]), None);
    assert!(d.is_connected());
    let ev = d.on_disconnected();
    assert_eq!(ev, BleDeviceEvent::Disconnected { device_address: "AA:BB".to_string() });
    assert!(!d.is_connected());
}

#[test]
fn cleanup_plans_disconnect_only_when_connected() {
    let mut d = connected_device();
    d.on_services_discovered(&discovered());
    d.subscribe_characteristic(SVC, HR, false, &vec![]);
    let plan = d.cleanup();
    assert!(plan.abort_dispatcher && plan.disconnect);
    d.on_cleanup_disconnected();
    assert!(!d.is_connected());
    let plan2 = d.cleanup();
    assert!(!plan2.abort_dispatcher && !plan2.disconnect);
}

#[test]
fn results_become_events() {
    let d = connected_device();
    assert_eq!(
        d.on_read_result("c".to_string(), Ok(vec![1])),
        BleDeviceEvent::CharacteristicRead { device_address: "AA:BB".to_string(), char_uuid: "c".to_string(), data: vec![1] }
    );
    assert_eq!(
        d.on_read_result("c".to_string(), Err("e".to_string())),
        BleDeviceEvent::CharacteristicReadFailed { device_address: "AA:BB".to_string(), char_uuid: "c".to_string(), error: "读取特征值失败: e".to_string() }
    );
    assert_eq!(
        d.on_write_result("c".to_string(), Err("e".to_string())),
        BleDeviceEvent::CharacteristicWriteFailed { device_address: "AA:BB".to_string(), char_uuid: "c".to_string(), error: "写入特征值失败: e".to_string() }
    );
    assert_eq!(
        d.on_write_result("c".to_string(), Ok(())),
        BleDeviceEvent::CharacteristicWritten { device_address: "AA:BB".to_string(), char_uuid: "c".to_string() }
    );
    assert_eq!(
        d.on_unsubscribe_result("c".to_string(), Err("e".to_string())),
        BleDeviceEvent::UnsubscribeFailed { device_address: "AA:BB".to_string(), char_uuid: "c".to_string(), error: "取消订阅失败: e".to_string() }
    );
    assert_eq!(
        d.on_service_discovery_failed("e".to_string()),
        BleDeviceEvent::ServiceDiscoveryFailed { device_address: "AA:BB".to_string(), error: "服务发现失败: e".to_string() }
    );
    assert_eq!(d.get_address(), "AA:BB");
    assert_eq!(d.get_name(), "Sensor");
}
