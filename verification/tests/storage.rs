use turnon::model::Device;
use turnon::net::boxed::SocketAddrV4Boxed;
use turnon::net::ip::Ipv4Addr;
use turnon::net::macaddr::MacAddr6Boxed;
use turnon::net::wol::wol_default_target_address;
use turnon::storage::{StoredDevice, StoredDeviceError};

/// Read a stored device from JSON the way the storage service reads it.
fn stored_device_from_json(json: &str) -> Result<StoredDevice, StoredDeviceError> {
    let value: serde_json::Value = serde_json::from_str(json).unwrap();
    StoredDevice::from_fields(
        value["label"].as_str().unwrap(),
        value["mac_address"].as_str().unwrap(),
        value["host"].as_str().unwrap(),
        value.get("target_address").and_then(|t| t.as_str()),
    )
}

/// Baseline deserialization: The earliest data format of all Turn On versions.
#[test]
fn deserialize_device_baseline() {
    let json = r#"
{
    "label": "NAS",
    "mac_address": "2E:E3:50:A3:E2:F7",
    "host": "192.168.2.100"
}"#;
    let device = stored_device_from_json(json).unwrap();
    assert_eq!(device.label, "NAS");
    assert_eq!(device.host, "192.168.2.100");
    assert_eq!(device.mac_address.to_string(), "2E:E3:50:A3:E2:F7");
    assert!(device.target_address.is_none());
}

#[test]
fn deserialize_with_target_address() {
    let json = r#"
{
    "label": "spam",
    "mac_address": "2E:E3:60:A3:E2:F7",
    "host": "foo",
    "target_address": "192.168.2.3:9"
}"#;
    let device = stored_device_from_json(json).unwrap();
    assert_eq!(device.label, "spam");
    assert_eq!(device.host, "foo");
    assert_eq!(device.mac_address.to_string(), "2E:E3:60:A3:E2:F7");
    assert_eq!(
        device.target_address,
        Some(SocketAddrV4Boxed::new(Ipv4Addr::new(192, 168, 2, 3), 9))
    );
}

#[test]
fn device_from_stored_device() {
    let stored_device = StoredDevice {
        label: "foo-server".into(),
        mac_address: MacAddr6Boxed::new(0x10, 0x11, 0x12, 0x13, 0x14, 0x15),
        host: "123.456.789.100".into(),
        target_address: None,
    };
    let device = stored_device.to_device();
    assert_eq!(device.label(), stored_device.label);
    assert_eq!(device.mac_address(), stored_device.mac_address);
    assert_eq!(device.host(), stored_device.host);
    assert_eq!(device.target_address(), wol_default_target_address());

    let target_address = SocketAddrV4Boxed::new(Ipv4Addr::new(123, 231, 123, 231), 42);
    let stored_device = StoredDevice {
        label: "foo".into(),
        mac_address: MacAddr6Boxed::new(0x20, 0x21, 0x22, 0x23, 0x24, 0x25),
        host: "foo.example.com".into(),
        target_address: Some(target_address),
    };
    let device = stored_device.to_device();
    assert_eq!(device.label(), stored_device.label);
    assert_eq!(device.mac_address(), stored_device.mac_address);
    assert_eq!(device.host(), stored_device.host);
    assert_eq!(device.target_address(), target_address);
}

#[test]
fn stored_device_from_device() {
    let device = Device::new(
        "foo",
        MacAddr6Boxed::new(0x0a, 0x0b, 0x0c, 0x0a, 0x0b, 0x0c),
        "spam.example.com",
        SocketAddrV4Boxed::new(Ipv4Addr::new(123, 231, 123, 231), 42),
    );
    let stored_device = StoredDevice::from_device(&device);
    assert_eq!(
        stored_device,
        StoredDevice {
            label: device.label(),
            mac_address: device.mac_address(),
            host: device.host(),
            target_address: Some(device.target_address())
        }
    );
}

#[test]
fn stored_device_fields_round_trip() {
    let stored = StoredDevice {
        label: "NAS".into(),
        mac_address: MacAddr6Boxed::new(0x2e, 0xe3, 0x50, 0xa3, 0xe2, 0xf7),
        host: "nas.example.com".into(),
        target_address: Some(SocketAddrV4Boxed::new(Ipv4Addr::new(10, 0, 0, 255), 9)),
    };
    let mac = stored.mac_address_string();
    let target = stored.target_address_string().unwrap();
    assert_eq!(mac, "2E:E3:50:A3:E2:F7");
    assert_eq!(target, "10.0.0.255:9");
    let read = StoredDevice::from_fields(&stored.label, &mac, &stored.host, Some(&target)).unwrap();
    assert_eq!(read, stored);
}

#[test]
fn stored_device_invalid_fields() {
    assert!(matches!(
        StoredDevice::from_fields("a", "not a mac", "h", None),
        Err(StoredDeviceError::InvalidMacAddress(_))
    ));
    assert!(matches!(
        StoredDevice::from_fields("a", "2E:E3:50:A3:E2:F7", "h", Some("10.0.0.1")),
        Err(StoredDeviceError::InvalidTargetAddress(_))
    ));
    assert!(matches!(
        StoredDevice::from_fields("a", "2E:E3:50:A3:E2:F7", "h", Some("10.0.0.1:70000")),
        Err(StoredDeviceError::InvalidTargetAddress(_))
    ));
}
