use turnon::commandline::{
    command_line_action, CommandLineAction,
    find_device_by_label, list_devices, no_device_message, render_device_line,
    turn_on_error_message, turn_on_message,
};
use turnon::model::Device;
use turnon::net::macaddr::MacAddr6Boxed;
use turnon::net::wol::wol_default_target_address;

fn device(label: &str, host: &str) -> Device {
    Device::new(
        label,
        MacAddr6Boxed::new(0xb6, 0xa3, 0xb0, 0x48, 0x80, 0xf1),
        host,
        wol_default_target_address(),
    )
}

#[test]
fn devices_are_found_by_exact_label() {
    let devices = vec![device("NAS", "nas"), device("Desktop", "pc"), device("NAS", "other")];
    assert_eq!(find_device_by_label(&devices, "NAS"), Some(0));
    assert_eq!(find_device_by_label(&devices, "Desktop"), Some(1));
    assert_eq!(find_device_by_label(&devices, "nas"), None);
    assert_eq!(find_device_by_label(&[], "NAS"), None);
}

#[test]
fn messages_fill_placeholders() {
    let d = device("NAS", "nas");
    assert_eq!(
        turn_on_message("Sent magic packet to mac address %1 of device %2\n", &d),
        "Sent magic packet to mac address B6:A3:B0:48:80:F1 of device NAS\n"
    );
    assert_eq!(
        turn_on_error_message("Failed to turn on device %1: %2\n", &d, "No route"),
        "Failed to turn on device NAS: No route\n"
    );
    assert_eq!(
        no_device_message("No device found for label %s\n", "foo"),
        "No device found for label foo\n"
    );
}

#[test]
fn device_lines_are_padded() {
    let d = device("NAS", "nas.local");
    assert_eq!(
        render_device_line(&d, Some(5), 7, 12),
        "\x1b[1;32m  5ms\x1b[0m NAS    \tB6:A3:B0:48:80:F1\tnas.local   \n"
    );
    assert_eq!(
        render_device_line(&d, Some(1234), 2, 2),
        "\x1b[1;32m1234ms\x1b[0m NAS\tB6:A3:B0:48:80:F1\tnas.local\n"
    );
    assert_eq!(
        render_device_line(&d, None, 3, 9),
        "\x1b[1;31m    ●\x1b[0m NAS\tB6:A3:B0:48:80:F1\tnas.local\n"
    );
}

#[test]
fn list_pads_to_longest_label_and_host() {
    let lines = list_devices(&[
        (device("NAS", "nas.local"), Some(12)),
        (device("Wörkstation", "pc"), None),
    ]);
    assert_eq!(lines.len(), 2);
    assert_eq!(
        lines[0],
        "\x1b[1;32m 12ms\x1b[0m NAS        \tB6:A3:B0:48:80:F1\tnas.local\n"
    );
    assert_eq!(
        lines[1],
        "\x1b[1;31m    ●\x1b[0m Wörkstation\tB6:A3:B0:48:80:F1\tpc       \n"
    );
    assert!(list_devices(&[]).is_empty());
}

#[test]
fn command_line_options_have_precedence() {
    assert!(matches!(
        command_line_action(true, true, Some("NAS".to_string())),
        CommandLineAction::ListDevices
    ));
    assert!(matches!(
        command_line_action(false, true, Some("NAS".to_string())),
        CommandLineAction::AddDevice
    ));
    match command_line_action(false, false, Some("NAS".to_string())) {
        CommandLineAction::TurnOnDevice(label) => assert_eq!(label, "NAS"),
        other => panic!("unexpected action {other:?}"),
    }
    assert!(matches!(
        command_line_action(false, false, None),
        CommandLineAction::Activate
    ));
}
