use turnon::net::ip::{IpAddr, Ipv4Addr, Ipv6Addr};
use turnon::model::{Device, Devices, MoveDirection};
use turnon::net::boxed::SocketAddrV4Boxed;
use turnon::net::macaddr::MacAddr6Boxed;
use turnon::widgets::{
    apply_row_effect,
    add_dialog_host_indicator, add_dialog_label_indicator, is_host_and_port, is_label_valid,
    is_mac_address_valid, is_target_address_valid, row_actions, DeviceRow, EditDeviceDialog,
    HostIndicator, RowAction, RowEffect, SuffixMode, WakeFeedback,
};

#[test]
fn host_and_port_is_recognized() {
    assert!(is_host_and_port("localhost:1245"));
    assert!(is_host_and_port("192.168.1.2:80"));
    assert!(is_host_and_port("foo:"));
    assert!(is_host_and_port("a:b:12"));
    assert!(!is_host_and_port("localhost"));
    assert!(!is_host_and_port("12:ab"));
    assert!(!is_host_and_port(""));
}

#[test]
fn host_indicator_classifies_hosts() {
    let v4 = Some(IpAddr::V4(Ipv4Addr::new(192, 168, 1, 2)));
    let v6 = Some(IpAddr::V6(Ipv6Addr::localhost()));
    assert_eq!(HostIndicator::of_host("192.168.1.2", v4), HostIndicator::Ipv4);
    assert_eq!(HostIndicator::of_host("::1", v6), HostIndicator::Ipv6);
    assert_eq!(HostIndicator::of_host("", None), HostIndicator::InvalidEmpty);
    assert_eq!(
        HostIndicator::of_host("nas:8080", None),
        HostIndicator::InvalidSocketAddress
    );
    assert_eq!(HostIndicator::of_host("nas.local", None), HostIndicator::Host);
    assert_eq!(HostIndicator::InvalidSocketAddress.name(), "invalid-socket-address");
    assert_eq!(HostIndicator::InvalidEmpty.name(), "invalid-empty");
    assert_eq!(HostIndicator::Host.name(), "host");
    assert!(HostIndicator::Host.is_valid());
    assert!(!HostIndicator::InvalidEmpty.is_valid());
}

#[test]
fn fields_are_validated() {
    assert!(is_label_valid("NAS"));
    assert!(!is_label_valid(""));
    assert!(is_mac_address_valid("a2:35:e4:9e:b4:c3"));
    assert!(is_mac_address_valid("a2:35:e4:9e:b4:c3:00:11"));
    assert!(!is_mac_address_valid(""));
    assert!(!is_mac_address_valid("a2:35"));
    assert!(is_target_address_valid("192.168.2.3:9"));
    assert!(!is_target_address_valid("192.168.2.3"));
    assert!(!is_target_address_valid(""));
}

#[test]
fn new_dialog_starts_with_default_target() {
    let dialog = EditDeviceDialog::new();
    assert!(dialog.device.is_none());
    assert_eq!(dialog.target_address, "255.255.255.255:9");
    assert!(dialog.target_address_valid);
    assert!(!dialog.label_valid && !dialog.mac_address_valid);
    assert_eq!(dialog.host_indicator, HostIndicator::InvalidEmpty);
    assert!(!dialog.is_valid());
    assert!(dialog.save_if_valid().is_none());
}

#[test]
fn dialog_validity_needs_all_fields() {
    let mut dialog = EditDeviceDialog::new();
    dialog.set_label("NAS");
    dialog.set_mac_address("a2:35:e4:9e:b4:c3");
    dialog.set_host("nas", None);
    dialog.set_target_address("");
    assert!(dialog.label_valid && dialog.mac_address_valid && !dialog.target_address_valid);
    assert_eq!(dialog.host_indicator, HostIndicator::Host);
    // The target address does not parse: the dialog is not valid.
    assert!(!dialog.is_valid());
    assert!(dialog.save_if_valid().is_none());
    dialog.set_target_address("10.0.0.255:7");
    assert!(dialog.is_valid());
    let device = dialog.save_if_valid().unwrap();
    assert_eq!(device.label(), "NAS");
    assert_eq!(device.host(), "nas");
    assert_eq!(device.mac_address().to_string(), "A2:35:E4:9E:B4:C3");
    assert_eq!(device.target_address().to_string(), "10.0.0.255:7");
    dialog.set_host("nas:80", None);
    assert!(!dialog.is_valid());
    dialog.set_host("nas", None);
    dialog.set_label("");
    assert!(!dialog.is_valid());
    dialog.set_label("NAS");
    dialog.set_mac_address("nope");
    assert!(!dialog.is_valid());
    // An EUI-64 address is valid, but cannot be saved as a device address.
    dialog.set_mac_address("a2:35:e4:9e:b4:c3:00:11");
    assert!(dialog.is_valid());
    assert!(dialog.save_if_valid().is_none());
}

#[test]
fn editing_unchanged_keeps_device() {
    let device = Device::new(
        "NAS",
        MacAddr6Boxed::new(0xb6, 0xa3, 0xb0, 0x48, 0x80, 0xf1),
        "nas.local",
        SocketAddrV4Boxed::new(Ipv4Addr::new(192, 168, 1, 255), 9),
    );
    let dialog = EditDeviceDialog::edit(device.duplicate(), None);
    assert_eq!(dialog.label, "NAS");
    assert_eq!(dialog.mac_address, "B6:A3:B0:48:80:F1");
    assert_eq!(dialog.target_address, "192.168.1.255:9");
    assert!(dialog.is_valid());
    let saved = dialog.save_if_valid().unwrap();
    assert!(saved.same_as(&device));
}

#[test]
fn device_row_actions() {
    let device = Device::new(
        "NAS",
        MacAddr6Boxed::new(1, 2, 3, 4, 5, 6),
        "nas",
        SocketAddrV4Boxed::new(Ipv4Addr::new(10, 0, 0, 255), 7),
    );
    let mut row = DeviceRow::new(device);
    assert!(!row.is_device_online);
    assert_eq!(row.suffix_mode, SuffixMode::Buttons);
    assert!(matches!(
        row.activate(RowAction::MoveUp, 2, None),
        RowEffect::Moved {
            position: 2,
            direction: MoveDirection::Upwards
        }
    ));
    assert!(matches!(
        row.activate(RowAction::MoveDown, 2, None),
        RowEffect::Moved {
            position: 2,
            direction: MoveDirection::Downwards
        }
    ));
    assert!(matches!(row.activate(RowAction::AskDelete, 2, None), RowEffect::Nothing));
    assert_eq!(row.suffix_mode, SuffixMode::ConfirmDelete);
    assert_eq!(row.suffix_mode.name(), "confirm-delete");
    assert!(matches!(row.activate(RowAction::CancelDelete, 2, None), RowEffect::Nothing));
    assert_eq!(row.suffix_mode.name(), "buttons");
    assert!(matches!(
        row.activate(RowAction::Delete, 2, None),
        RowEffect::Deleted { position: 2 }
    ));
    match row.activate(RowAction::Edit, 2, None) {
        RowEffect::Edit { position, dialog } => {
            assert_eq!(position, 2);
            assert_eq!(dialog.label, "NAS");
            assert_eq!(dialog.target_address, "10.0.0.255:7");
        }
        other => panic!("unexpected {other:?}"),
    }
    match row.activate(RowAction::Add, 2, None) {
        RowEffect::Add(dialog) => {
            assert_eq!(dialog.label, "NAS");
            assert_eq!(dialog.mac_address, "01:02:03:04:05:06");
            assert_eq!(dialog.target_address, "255.255.255.255:9");
        }
        other => panic!("unexpected {other:?}"),
    }
    row.set_suffix_mode(SuffixMode::ConfirmDelete);
    assert_eq!(row.suffix_mode, SuffixMode::ConfirmDelete);
}

#[test]
fn add_dialog_indicators() {
    assert_eq!(add_dialog_host_indicator("", None), "empty");
    assert_eq!(add_dialog_host_indicator("nas:80", None), "host");
    assert_eq!(
        add_dialog_host_indicator("10.0.0.1", Some(IpAddr::V4(Ipv4Addr::new(10, 0, 0, 1)))),
        "ipv4"
    );
    assert_eq!(add_dialog_label_indicator("x"), "valid");
    assert_eq!(add_dialog_label_indicator(""), "invalid");
}

#[test]
fn row_state_and_markup() {
    assert_eq!(DeviceRow::device_state_name(true), "online");
    assert_eq!(DeviceRow::device_state_name(false), "offline");
    assert_eq!(
        DeviceRow::device_host("nas & co", Some("https://nas")),
        "<a href=\"https://nas\">nas &amp; co</a>"
    );
    assert_eq!(DeviceRow::device_host("nas", None), "nas");
    assert_eq!(DeviceRow::device_host("a&b", None), "a&amp;b");
    assert_eq!(
        DeviceRow::device_host("nas<1>", Some("http://nas/?a=1&b=2")),
        "<a href=\"http://nas/?a=1&amp;b=2\">nas&lt;1&gt;</a>"
    );
    assert_eq!(
        DeviceRow::device_host("it's \"x\"\u{1}\u{7f}\u{9f}\u{85}\t", None),
        "it&#39;s &quot;x&quot;&#x1;&#x7f;&#x9f;\u{85}\t"
    );
    let d = Device::new(
        "x",
        MacAddr6Boxed::new(1, 2, 3, 4, 5, 6),
        "h",
        SocketAddrV4Boxed::default(),
    );
    assert_eq!(DeviceRow::device_mac_address(&d), "01:02:03:04:05:06");
    let registered = row_actions(true);
    assert!(registered.delete && registered.edit && registered.move_up && !registered.add);
    assert!(!registered.discovered);
    let discovered = row_actions(false);
    assert!(discovered.add && discovered.discovered && !discovered.delete);
}

#[test]
fn wake_feedback() {
    assert_eq!(WakeFeedback::Sending.timeout(), 3);
    assert_eq!(WakeFeedback::Sent.timeout(), 3);
    assert_eq!(WakeFeedback::Failed.timeout(), 10);
    assert_eq!(
        WakeFeedback::Sent.title("NAS"),
        "Sent magic packet to device NAS"
    );
    assert_eq!(
        WakeFeedback::Sending.title("NAS"),
        "Sending magic packet to device NAS"
    );
    assert_eq!(
        WakeFeedback::Failed.title("NAS"),
        "Failed to send magic packet to device NAS"
    );
    assert_eq!(WakeFeedback::Failed.message(), "Failed to send magic packet to device %s");
}

#[test]
fn wake_feedback_stages() {
    assert_eq!(WakeFeedback::start(), WakeFeedback::Sending);
    assert_eq!(WakeFeedback::after_wake(true), WakeFeedback::Sent);
    assert_eq!(WakeFeedback::after_wake(false), WakeFeedback::Failed);
    assert_eq!(WakeFeedback::after_wake(false).timeout(), 10);
}

#[test]
fn row_effects_go_by_position() {
    let device = |label: &str| {
        Device::new(
            label,
            MacAddr6Boxed::nil(),
            "host",
            SocketAddrV4Boxed::new(Ipv4Addr::new(255, 255, 255, 255), 9),
        )
    };
    let mut devices = Devices::new();
    devices.add_device(device("A"));
    devices.add_device(device("X"));
    devices.add_device(device("A"));
    let mut row = DeviceRow::new(device("A"));
    let effect = row.activate(RowAction::MoveUp, 2, None);
    apply_row_effect(&mut devices, &effect);
    let labels: Vec<String> = devices.registered_devices.iter().map(|d| d.label()).collect();
    assert_eq!(labels, ["A", "A", "X"]);
    let effect = row.activate(RowAction::Delete, 0, None);
    apply_row_effect(&mut devices, &effect);
    let labels: Vec<String> = devices.registered_devices.iter().map(|d| d.label()).collect();
    assert_eq!(labels, ["A", "X"]);
}
