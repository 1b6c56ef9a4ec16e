use turnon::debuginfo::{
    report_hosts,
    no_addresses_message, timeout_message, timeout_message_secs, Connectivity, DebugInfo,
    DevicePingResult,
};

fn info() -> DebugInfo {
    DebugInfo {
        app_id: "de.swsnr.turnon".to_string(),
        version: "2.1.0".to_string(),
        flatpak: true,
        connectivity: Connectivity::Full,
        ping_results: vec![
            (
                "localhost".to_string(),
                DevicePingResult::Pinged(vec![
                    ("127.0.0.1".to_string(), Ok(0)),
                    ("::1".to_string(), Err("Timeout after 500ms".to_string())),
                ]),
            ),
            (
                "nas.local".to_string(),
                DevicePingResult::ResolveFailed("Name not found".to_string()),
            ),
        ],
        arp_cache_contents: Ok("IP address HW type\n".to_string()),
        parsed_arp_cache: Ok(vec!["entry 1".to_string(), "entry 2".to_string()]),
    }
}

#[test]
fn report_lists_everything() {
    let expected = "DEBUG REPORT de.swsnr.turnon 2.1.0

THIS REPORT CONTAINS HOST NAMES, IP ADDRESSES, AND HARDWARE ADDRESSES OF YOUR DEVICES.

IF YOU CONSIDER THIS REPORT SENSITIVE DO NOT POST IT PUBLICLY!

Flatpak? true
Network connectivity: Full

Host localhost:
    127.0.0.1: 0ms
    ::1: Timeout after 500ms
Host nas.local
    Failed to resolve: Name not found

ARP cache contents:
IP address HW type


Parsed ARP cache:
entry 1
entry 2
";
    assert_eq!(info().to_string(), expected);
}

#[test]
fn report_shows_failures() {
    let mut info = info();
    info.flatpak = false;
    info.connectivity = Connectivity::Other("__Unknown(7)".to_string());
    info.ping_results = vec![];
    info.arp_cache_contents = Err("No such file".to_string());
    info.parsed_arp_cache = Err("No such file".to_string());
    let report = info.to_string();
    assert!(report.contains("Flatpak? false\nNetwork connectivity: Other __Unknown(7)\n\n\n\nARP cache contents:\nFailed: No such file\n\nParsed ARP cache:\nFailed: No such file\n"));
}

#[test]
fn suggested_file_name_has_id_and_version() {
    assert_eq!(info().suggested_file_name(), "de.swsnr.turnon-2.1.0-debug.txt");
}

#[test]
fn timeout_messages() {
    assert_eq!(timeout_message(1500), "Timeout after 1500ms");
    assert_eq!(timeout_message_secs(2), "Timeout after 2s");
    assert_eq!(no_addresses_message("nas"), "No addresses found for nas");
}

#[test]
fn report_pings_localhost_first() {
    let devices = vec![
        turnon::model::Device::new(
            "NAS",
            turnon::net::macaddr::MacAddr6Boxed::nil(),
            "nas.local",
            turnon::net::wol::wol_default_target_address(),
        ),
        turnon::model::Device::new(
            "PC",
            turnon::net::macaddr::MacAddr6Boxed::nil(),
            "10.0.0.2",
            turnon::net::wol::wol_default_target_address(),
        ),
    ];
    assert_eq!(report_hosts(&devices), ["localhost", "nas.local", "10.0.0.2"]);
    assert_eq!(report_hosts(&[]), ["localhost"]);
}
