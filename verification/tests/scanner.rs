use gdble::error::BleError;
use gdble::scanner::{
    extended_advertisements_requested, BluetoothScanner, PeripheralProperties, ScanEventDecision,
    ScanEventKind,
};

fn props(name: &str) -> PeripheralProperties {
    PeripheralProperties {
        local_name: Some(name.to_string()),
        rssi: Some(-60),
        services: vec!["180d".to_string()],
        manufacturer_data: vec![],
        service_data: vec![],
        tx_power_level: None,
    }
}

#[test]
fn second_scan_is_refused() {
    let mut s = BluetoothScanner::new();
    assert!(!s.is_scanning());
    assert_eq!(s.begin_scan(), Ok(()));
    assert!(s.is_scanning());
    let err = s.begin_scan().unwrap_err();
    assert_eq!(err, BleError::ScanFailed("Already scanning".to_string()));
    assert_eq!(err.to_string(), "扫描失败: Already scanning");
}

#[test]
fn events_are_counted_and_classified() {
    let mut s = BluetoothScanner::new();
    s.begin_scan().unwrap();
    assert_eq!(s.on_scan_event(ScanEventKind::DeviceDiscovered), ScanEventDecision::LookUp);
    assert_eq!(s.on_scan_event(ScanEventKind::DeviceUpdated), ScanEventDecision::LookUp);
    assert_eq!(s.on_scan_event(ScanEventKind::ServicesAdvertisement(0)), ScanEventDecision::Ignore);
    assert_eq!(s.on_scan_event(ScanEventKind::ServicesAdvertisement(2)), ScanEventDecision::LookUp);
    assert_eq!(s.on_scan_event(ScanEventKind::Other), ScanEventDecision::Ignore);
    assert_eq!(s.raw_advertisements(), 4);
    assert!(s.stop_scan());
    assert!(!s.is_scanning());
    assert_eq!(s.on_scan_event(ScanEventKind::DeviceDiscovered), ScanEventDecision::Stop);
    assert_eq!(s.raw_advertisements(), 4);
    assert!(!s.stop_scan());
}

#[test]
fn recorded_devices_are_keyed_by_canonical_address() {
    let mut s = BluetoothScanner::new();
    s.begin_scan().unwrap();
    let info = s.record_device(" aa:bb:cc:dd:ee:ff ", props("HR"));
    assert_eq!(info.address, "AA:BB:CC:DD:EE:FF");
    assert_eq!(info.pairing_status, "unknown");
    let again = s.record_device("AA:BB:CC:DD:EE:FF", props("HR2"));
    assert_eq!(again.name, Some("HR2".to_string()));
    assert_eq!(s.unique_devices(), 1);
    let devices = s.get_devices();
    assert_eq!(devices.len(), 1);
    assert_eq!(devices[0].name, Some("HR2".to_string()));
    assert!(s.is_device_cached("aa:bb:cc:dd:ee:ff"));
    assert!(!s.is_device_cached("11:22:33:44:55:66"));
    let (key, cached) = s.get_cached_peripheral("Aa:Bb:Cc:Dd:Ee:Ff").unwrap();
    assert_eq!(key, "AA:BB:CC:DD:EE:FF");
    assert_eq!(cached.name, Some("HR2".to_string()));
    assert!(s.get_cached_peripheral("00").is_none());
}

#[test]
fn post_scan_pass_forwards_unsent_devices_once() {
    let mut s = BluetoothScanner::new();
    s.begin_scan().unwrap();
    s.record_device("AA", props("seen"));
    assert_eq!(s.finish_scan(None), Ok(()));
    assert!(!s.is_scanning());
    assert!(s.post_scan_device("aa", props("seen")).is_none());
    let fresh = s.post_scan_device("bb", props("late")).unwrap();
    assert_eq!(fresh.address, "BB");
    assert!(s.post_scan_device("BB", props("late")).is_none());
    assert_eq!(s.unique_devices(), 2);
}

#[test]
fn new_scan_forgets_previous_results() {
    let mut s = BluetoothScanner::new();
    s.begin_scan().unwrap();
    s.record_device("AA", props("x"));
    s.finish_scan(None).unwrap();
    s.begin_scan().unwrap();
    assert_eq!(s.unique_devices(), 0);
    assert_eq!(s.raw_advertisements(), 0);
    assert!(!s.is_device_cached("AA"));
    assert!(s.post_scan_device("AA", props("x")).is_some());
}

#[test]
fn scan_errors_have_their_messages() {
    let mut s = BluetoothScanner::new();
    s.begin_scan().unwrap();
    let err = s.finish_scan(Some("adapter gone".to_string())).unwrap_err();
    assert_eq!(err.to_string(), "扫描失败: Failed to stop scan: adapter gone");
    assert!(!s.is_scanning());
    assert!(s.begin_scan().is_ok());
    assert_eq!(s.events_unavailable("x").to_string(), "扫描失败: Failed to get events: x");
    assert!(!s.is_scanning());
    assert!(s.begin_scan().is_ok());
    assert_eq!(s.adapter_start_failed("y".to_string()).to_string(), "扫描失败: y");
    assert!(!s.is_scanning());
    assert!(s.begin_scan().is_ok());
    assert_eq!(BluetoothScanner::scan_outcome(None), Ok(()));
    assert_eq!(BluetoothScanner::scan_outcome(Some(Ok(()))), Ok(()));
    assert_eq!(
        BluetoothScanner::scan_outcome(Some(Err(BleError::Timeout("t".to_string())))),
        Err(BleError::Timeout("t".to_string()))
    );
}

#[test]
fn extended_advertisements_need_exactly_one() {
    assert!(extended_advertisements_requested(Some("1")));
    assert!(!extended_advertisements_requested(Some("true")));
    assert!(!extended_advertisements_requested(Some("")));
    assert!(!extended_advertisements_requested(None));
}
