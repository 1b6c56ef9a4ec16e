use turnon::dbus::{ActivateResult, GetInitialResultSet, GetResultMetas, LaunchSearch, MethodCall};
use turnon::model::Device;
use turnon::net::macaddr::MacAddr6Boxed;
use turnon::net::wol::wol_default_target_address;
use turnon::searchprovider::{
    activation_notice, activation_reply,
    device_for_identifier, dispatch_method_call, get_ids_for_terms, get_result_metas,
    matches_terms, notification_body, SearchResponse,
};

fn terms(ts: &[&str]) -> Vec<String> {
    ts.iter().map(|t| t.to_string()).collect()
}

fn server() -> Device {
    Device::new(
        "Server",
        MacAddr6Boxed::nil(),
        "foo.example.com",
        wol_default_target_address(),
    )
}

#[test]
fn device_matches_terms_case_insensitive() {
    let device = server();
    assert!(matches_terms(&device, &terms(&["server"])));
    assert!(matches_terms(&device, &terms(&["SERVER"])));
    assert!(matches_terms(&device, &terms(&["SeRvEr"])));
    assert!(matches_terms(&device, &terms(&["FOO"])));
    assert!(matches_terms(&device, &terms(&["fOo"])));
}

#[test]
fn device_matches_terms_in_label_and_host() {
    let device = server();
    assert!(matches_terms(&device, &terms(&["Server", "foo"])));
}

#[test]
fn device_matches_terms_ignores_mac_address() {
    let device = Device::new(
        "Server",
        MacAddr6Boxed::from_str("a2:35:e4:9e:b4:c3").unwrap(),
        "foo.example.com",
        wol_default_target_address(),
    );
    assert!(!matches_terms(&device, &terms(&["a2:35"])));
}

#[test]
fn device_matches_no_terms() {
    assert!(matches_terms(&server(), &[]));
}

#[test]
fn device_does_not_match_when_one_term_is_missing() {
    assert!(!matches_terms(&server(), &terms(&["server", "bar"])));
}

fn devices() -> Vec<Device> {
    vec![
        server(),
        Device::new(
            "NAS",
            MacAddr6Boxed::nil(),
            "nas.example.com",
            wol_default_target_address(),
        ),
        Device::new(
            "Desktop",
            MacAddr6Boxed::nil(),
            "192.168.1.10",
            wol_default_target_address(),
        ),
    ]
}

#[test]
fn ids_for_terms_are_positions() {
    let devices = devices();
    assert_eq!(get_ids_for_terms(&devices, &terms(&["example"])), vec!["0", "1"]);
    assert_eq!(get_ids_for_terms(&devices, &terms(&["desk"])), vec!["2"]);
    assert!(get_ids_for_terms(&devices, &terms(&["nothing"])).is_empty());
    assert_eq!(get_ids_for_terms(&devices, &[]), vec!["0", "1", "2"]);
}

#[test]
fn identifier_refers_to_position() {
    let devices = devices();
    assert_eq!(device_for_identifier(&devices, "0"), Some(0));
    assert_eq!(device_for_identifier(&devices, "2"), Some(2));
    assert_eq!(device_for_identifier(&devices, "3"), None);
    assert_eq!(device_for_identifier(&devices, "-1"), None);
    assert_eq!(device_for_identifier(&devices, "one"), None);
    assert_eq!(device_for_identifier(&devices, ""), None);
}

#[test]
fn result_metas_skip_unknown_identifiers() {
    let devices = devices();
    let metas = get_result_metas(&devices, &terms(&["1", "7", "x", "0"]));
    assert_eq!(metas.len(), 2);
    assert_eq!(metas[0].id, "1");
    assert_eq!(metas[0].name, "NAS");
    assert_eq!(metas[0].description, "nas.example.com");
    assert_eq!(metas[1].id, "0");
    assert_eq!(metas[1].name, "Server");
    assert_eq!(metas[1].description, "foo.example.com");
}

#[test]
fn dispatch_answers_each_call() {
    let devices = devices();
    match dispatch_method_call(
        &devices,
        &MethodCall::GetInitialResultSet(GetInitialResultSet {
            terms: terms(&["nas"]),
        }),
    ) {
        SearchResponse::ResultSet(ids) => assert_eq!(ids, vec!["1"]),
        other => panic!("unexpected response {other:?}"),
    }
    match dispatch_method_call(
        &devices,
        &MethodCall::GetResultMetas(GetResultMetas {
            identifiers: terms(&["2"]),
        }),
    ) {
        SearchResponse::ResultMetas(metas) => {
            assert_eq!(metas.len(), 1);
            assert_eq!(metas[0].name, "Desktop");
        }
        other => panic!("unexpected response {other:?}"),
    }
    match dispatch_method_call(
        &devices,
        &MethodCall::ActivateResult(ActivateResult {
            identifier: "1".to_string(),
            terms: vec![],
            timestamp: 0,
        }),
    ) {
        SearchResponse::Activate(n) => assert_eq!(n, Some(1)),
        other => panic!("unexpected response {other:?}"),
    }
    match dispatch_method_call(
        &devices,
        &MethodCall::ActivateResult(ActivateResult {
            identifier: "9".to_string(),
            terms: vec![],
            timestamp: 0,
        }),
    ) {
        SearchResponse::Activate(n) => assert_eq!(n, None),
        other => panic!("unexpected response {other:?}"),
    }
    assert!(matches!(
        dispatch_method_call(
            &devices,
            &MethodCall::LaunchSearch(LaunchSearch {
                terms: vec![],
                timestamp: 0,
            }),
        ),
        SearchResponse::LaunchSearch
    ));
}

#[test]
fn notification_body_fills_address_then_label() {
    assert_eq!(
        notification_body("Sent magic packet to mac address %1 of device %2.", "AA:BB:CC:DD:EE:FF", "NAS"),
        "Sent magic packet to mac address AA:BB:CC:DD:EE:FF of device NAS."
    );
    assert_eq!(notification_body("%2 %2", "a", "b"), "b b");
    assert_eq!(notification_body("no placeholders", "a", "b"), "no placeholders");
}

#[test]
fn activation_notices() {
    let sent = activation_notice(true);
    assert!(sent.sent && !sent.urgent);
    assert_eq!(sent.withdraw_after_secs, Some(10));
    let failed = activation_notice(false);
    assert!(!failed.sent && failed.urgent);
    assert_eq!(failed.withdraw_after_secs, None);
    assert_eq!(sent.title(), "Sent magic packet");
    assert_eq!(failed.title(), "Failed to send magic packet");
    let device = Device::new(
        "NAS",
        MacAddr6Boxed::from_str("a2:35:e4:9e:b4:c3").unwrap(),
        "nas",
        wol_default_target_address(),
    );
    assert_eq!(
        sent.body(&device),
        "Sent magic packet to mac address A2:35:E4:9E:B4:C3 of device NAS."
    );
    assert_eq!(
        failed.body(&device),
        "Failed to send magic packet to mac address A2:35:E4:9E:B4:C3 of device NAS."
    );
    assert!(matches!(activation_reply::<String>(Ok(())), Ok(None)));
    assert_eq!(
        activation_reply::<String>(Err("unreachable".to_string())).unwrap_err(),
        "unreachable"
    );
}
