use turnon::dbus::{CallParams, MethodCall, MethodCallError, INTERFACE_NAME};

fn strings(ts: &[&str]) -> Vec<String> {
    ts.iter().map(|t| t.to_string()).collect()
}

#[test]
fn calls_are_parsed() {
    match MethodCall::parse_call(
        Some(INTERFACE_NAME),
        "GetInitialResultSet",
        CallParams::Strings(strings(&["nas"])),
    ) {
        Ok(MethodCall::GetInitialResultSet(c)) => assert_eq!(c.terms, ["nas"]),
        other => panic!("unexpected {other:?}"),
    }
    match MethodCall::parse_call(
        Some(INTERFACE_NAME),
        "GetSubsearchResultSet",
        CallParams::TwoStringLists(strings(&["0"]), strings(&["na"])),
    ) {
        Ok(MethodCall::GetSubsearchResultSet(c)) => {
            assert_eq!(c.previous_results, ["0"]);
            assert_eq!(c.terms, ["na"]);
        }
        other => panic!("unexpected {other:?}"),
    }
    match MethodCall::parse_call(
        Some(INTERFACE_NAME),
        "GetResultMetas",
        CallParams::Strings(strings(&["0", "1"])),
    ) {
        Ok(MethodCall::GetResultMetas(c)) => assert_eq!(c.identifiers, ["0", "1"]),
        other => panic!("unexpected {other:?}"),
    }
    match MethodCall::parse_call(
        Some(INTERFACE_NAME),
        "ActivateResult",
        CallParams::StringStringsU32("1".to_string(), strings(&["x"]), 42),
    ) {
        Ok(MethodCall::ActivateResult(c)) => {
            assert_eq!(c.identifier, "1");
            assert_eq!(c.terms, ["x"]);
            assert_eq!(c.timestamp, 42);
        }
        other => panic!("unexpected {other:?}"),
    }
    match MethodCall::parse_call(
        Some(INTERFACE_NAME),
        "LaunchSearch",
        CallParams::StringsU32(strings(&["x"]), 7),
    ) {
        Ok(MethodCall::LaunchSearch(c)) => {
            assert_eq!(c.terms, ["x"]);
            assert_eq!(c.timestamp, 7);
        }
        other => panic!("unexpected {other:?}"),
    }
}

#[test]
fn bad_calls_are_refused() {
    assert_eq!(
        MethodCall::parse_call(None, "LaunchSearch", CallParams::Other).unwrap_err(),
        MethodCallError::UnexpectedInterface
    );
    assert_eq!(
        MethodCall::parse_call(Some("org.example.Other"), "LaunchSearch", CallParams::Other)
            .unwrap_err(),
        MethodCallError::UnexpectedInterface
    );
    assert_eq!(
        MethodCall::parse_call(Some(INTERFACE_NAME), "Frobnicate", CallParams::Other).unwrap_err(),
        MethodCallError::UnexpectedMethod
    );
    assert_eq!(
        MethodCall::parse_call(
            Some(INTERFACE_NAME),
            "GetInitialResultSet",
            CallParams::StringsU32(vec![], 1)
        )
        .unwrap_err(),
        MethodCallError::InvalidParameters
    );
    assert_eq!(
        MethodCallError::InvalidParameters.message(),
        "Invalid parameters for method"
    );
    assert_eq!(MethodCallError::UnexpectedMethod.message(), "Unexpected method");
    assert_eq!(MethodCallError::UnexpectedInterface.message(), "Unexpected interface");
}
