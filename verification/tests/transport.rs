use aether_agent::device::DeviceId;
use aether_agent::transport::{
    DiscoveredDevice, MockBleTransport, MockNfcTransport, MockQrTransport, PairingChannel, Transport, TransportError,
    TransportKind, TransportManager, TransportMetadata,
};


fn test_device(id: &str) -> DiscoveredDevice {
    DiscoveredDevice {
        device_id: DeviceId::new(id).expect("valid device id"),
        name: format!("Device {id}"),
        signal_strength: Some(80),
        metadata: TransportMetadata::Ble {
            rssi: -50,
            service_uuids: vec!["0000180d-0000-1000-8000-00805f9b34fb".into()],
        },
        previously_paired: false,
    }
}

#[test]
fn ble_transport_lifecycle() {
    let mut t = MockBleTransport::new();
    assert!(!t.is_powered_on());
    t.power_on().unwrap();
    assert!(t.is_powered_on());
    t.power_off().unwrap();
    assert!(!t.is_powered_on());
}

#[test]
fn ble_scan_requires_power() {
    let mut t = MockBleTransport::new();
    let result = t.start_scan();
    assert_eq!(result.unwrap_err(), TransportError::PoweredOff);
}

#[test]
fn ble_discover_devices() {
    let mut t = MockBleTransport::new();
    t.power_on().unwrap();
    t.add_device(test_device("a1"));
    t.add_device(test_device("a2"));
    t.start_scan().unwrap();
    let devices = t.discovered_devices().unwrap();
    assert_eq!(devices.len(), 2);
}

#[test]
fn ble_open_channel() {
    let mut t = MockBleTransport::new();
    t.power_on().unwrap();
    t.add_device(test_device("a1"));
    t.start_scan().unwrap();
    let dev = t.discovered_devices().unwrap().remove(0);
    let mut ch = t.open_channel(&dev.device_id).unwrap();
    assert!(ch.is_open());
    ch.send(b"hello").unwrap();
    let data = ch.receive().unwrap();
    assert_eq!(data, b"hello");
    ch.close().unwrap();
    assert!(!ch.is_open());
}

#[test]
fn ble_channel_rejects_unknown_device() {
    let t = MockBleTransport::new();
    let result = t.open_channel(&DeviceId::new("unknown").expect("valid id"));
    assert!(result.is_err());
}

#[test]
fn qr_transport_lifecycle() {
    let mut t = MockQrTransport::new();
    t.power_on().unwrap();
    assert!(t.is_powered_on());
    t.power_off().unwrap();
    assert!(!t.is_powered_on());
}

#[test]
fn qr_discover_devices() {
    let mut t = MockQrTransport::new();
    t.power_on().unwrap();
    t.queue_scan(test_device("q1"));
    let devices = t.discovered_devices().unwrap();
    assert_eq!(devices.len(), 1);
    assert_eq!(devices[0].device_id, DeviceId::new("q1").expect("valid id"));
}

#[test]
fn nfc_transport_lifecycle() {
    let mut t = MockNfcTransport::new();
    t.power_on().unwrap();
    assert!(t.is_powered_on());
}

#[test]
fn nfc_discover_devices() {
    let mut t = MockNfcTransport::new();
    t.power_on().unwrap();
    t.add_tag(test_device("n1"));
    let devices = t.discovered_devices().unwrap();
    assert_eq!(devices.len(), 1);
}

#[test]
fn transport_manager_discover_all() {
    let mut mgr = TransportManager::new();
    let mut ble = MockBleTransport::new();
    ble.power_on().unwrap();
    ble.start_scan().unwrap();
    ble.add_device(test_device("b1"));
    mgr.register(Box::new(ble));

    let mut nfc = MockNfcTransport::new();
    nfc.power_on().unwrap();
    nfc.start_scan().unwrap();
    nfc.add_tag(test_device("n1"));
    mgr.register(Box::new(nfc));

    let all = mgr.discover_all().unwrap();
    assert_eq!(all.len(), 2);
}

#[test]
fn transport_manager_get_by_kind() {
    let mut mgr = TransportManager::new();
    mgr.register(Box::new(MockBleTransport::new()));
    mgr.register(Box::new(MockQrTransport::new()));
    assert!(mgr.get(TransportKind::Ble).is_some());
    assert!(mgr.get(TransportKind::Qr).is_some());
    assert!(mgr.get(TransportKind::NFC).is_none());
}

#[test]
fn transport_kind_display() {
    assert_eq!(TransportKind::Ble.to_string(), "BLE");
    assert_eq!(TransportKind::Qr.to_string(), "QR");
    assert_eq!(TransportKind::NFC.to_string(), "NFC");
}

#[test]
fn transport_error_display() {
    let e = TransportError::ConnectionFailed("test".into());
    assert!(e.to_string().contains("test"));
}

#[test]
fn max_transfer_sizes() {
    let ble = MockBleTransport::new();
    let qr = MockQrTransport::new();
    let nfc = MockNfcTransport::new();
    assert_eq!(ble.max_transfer_size(), 512);
    assert_eq!(qr.max_transfer_size(), 1024);
    assert_eq!(nfc.max_transfer_size(), 256);
}

#[test]
fn range_meters() {
    let ble = MockBleTransport::new();
    let qr = MockQrTransport::new();
    let nfc = MockNfcTransport::new();
    assert_eq!(ble.range_meters(), Some(10));
    assert_eq!(qr.range_meters(), None);
    assert_eq!(nfc.range_meters(), Some(1));
}
