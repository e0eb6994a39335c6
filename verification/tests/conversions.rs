use rtiddsconnector::connector::versions_string_of;
use rtiddsconnector::ffi::{
    build_versions_of,
    nonempty_message,
    check_c_string, native_timeout_ms, timeout_from_duration, timeout_from_millis, ConnectorIndex,
    InvokeResult, INFINITE_TIMEOUT_IN_MS,
};
use rtiddsconnector::input::ignore_no_data;
use rtiddsconnector::native::{AnyValue, NativeAnyValueHolder, ReturnCode};
use rtiddsconnector::text::decimal_string;
use rtiddsconnector::{ConnectorError, ErrorKind, InvalidErrorKind, SelectedValue};

fn invalid_kind(e: &ConnectorError) -> Option<InvalidErrorKind> {
    match e.kind() {
        ErrorKind::Invalid { what, .. } => Some(*what),
        _ => None,
    }
}

#[test]
fn return_codes_read_from_native_values() {
    assert_eq!(ReturnCode::from_native(0), ReturnCode::Success);
    assert_eq!(ReturnCode::from_native(1), ReturnCode::Error);
    assert_eq!(ReturnCode::from_native(9), ReturnCode::AlreadyDeleted);
    assert_eq!(ReturnCode::from_native(10), ReturnCode::Timeout);
    assert_eq!(ReturnCode::from_native(11), ReturnCode::NoData);
    assert_eq!(ReturnCode::from_native(12), ReturnCode::IllegalOperation);
    for folded in [2, 3, 4, 5, 6, 7, 8, 1000] {
        assert_eq!(ReturnCode::from_native(folded), ReturnCode::Error);
    }
    assert_eq!(ReturnCode::from_native(42), ReturnCode::Unknown(42));
    assert_eq!(ReturnCode::from_native(-7), ReturnCode::Unknown(-7));
}

#[test]
fn return_codes_written_as_native_values() {
    assert_eq!(ReturnCode::Success.as_native(), 0);
    assert_eq!(ReturnCode::Error.as_native(), 1);
    assert_eq!(ReturnCode::AlreadyDeleted.as_native(), 9);
    assert_eq!(ReturnCode::Timeout.as_native(), 10);
    assert_eq!(ReturnCode::NoData.as_native(), 11);
    assert_eq!(ReturnCode::IllegalOperation.as_native(), 12);
    assert_eq!(ReturnCode::Unknown(77).as_native(), 77);
}

#[test]
fn return_code_round_trip_on_concrete_values() {
    for v in [-3, 0, 1, 2, 8, 9, 10, 11, 12, 13, 999, 1000, 1001] {
        let rc = ReturnCode::from_native(v);
        assert_eq!(ReturnCode::from_native(rc.as_native()), rc);
        if !((2..=8).contains(&v) || v == 1000) {
            assert_eq!(rc.as_native(), v);
        }
    }
}

#[test]
fn return_code_texts() {
    assert_eq!(ReturnCode::Success.to_text(), "OK");
    assert_eq!(ReturnCode::Error.to_text(), "Error");
    assert_eq!(ReturnCode::AlreadyDeleted.to_text(), "Already Deleted");
    assert_eq!(ReturnCode::Timeout.to_text(), "Timeout");
    assert_eq!(ReturnCode::NoData.to_text(), "No Data");
    assert_eq!(ReturnCode::IllegalOperation.to_text(), "Illegal Operation");
    assert_eq!(ReturnCode::Unknown(-42).to_text(), "Unknown error code: -42");
    assert_eq!(ReturnCode::Unknown(1234).to_text(), "Unknown error code: 1234");
}

#[test]
fn any_value_kinds_round_trip() {
    assert_eq!(AnyValue::from_native(0), AnyValue::NoValue);
    assert_eq!(AnyValue::from_native(1), AnyValue::Number);
    assert_eq!(AnyValue::from_native(2), AnyValue::Boolean);
    assert_eq!(AnyValue::from_native(3), AnyValue::String);
    assert_eq!(AnyValue::from_native(4), AnyValue::Unknown(4));
    for v in [-1, 0, 1, 2, 3, 4, 100] {
        assert_eq!(AnyValue::from_native(v).as_native(), v);
    }
}

#[test]
fn decimal_rendering() {
    assert_eq!(decimal_string(0), "0");
    assert_eq!(decimal_string(7), "7");
    assert_eq!(decimal_string(-123), "-123");
    assert_eq!(decimal_string(1_000_000), "1000000");
    assert_eq!(decimal_string(i64::MIN), "-9223372036854775808");
    assert_eq!(decimal_string(i64::MAX), "9223372036854775807");
}

#[test]
fn c_strings_without_nul_are_accepted() {
    assert!(check_c_string("MyPublisher::MyWriter").is_ok());
    assert!(check_c_string("").is_ok());
    assert!(check_c_string("héllo wörld").is_ok());
}

#[test]
fn c_strings_with_nul_are_rejected() {
    let e = check_c_string("bad\0name").unwrap_err();
    assert_eq!(invalid_kind(&e), Some(InvalidErrorKind::StringConversion));
    assert!(check_c_string("\0").is_err());
}

#[test]
fn sample_indices_become_one_based() {
    assert_eq!(ConnectorIndex::try_from_index(0).unwrap(), ConnectorIndex(1));
    assert_eq!(ConnectorIndex::try_from_index(41).unwrap(), ConnectorIndex(42));
    assert_eq!(
        ConnectorIndex::try_from_index(i32::MAX as usize - 1).unwrap(),
        ConnectorIndex(i32::MAX)
    );
}

#[test]
fn sample_indices_beyond_the_c_range_are_rejected() {
    let e = ConnectorIndex::try_from_index(i32::MAX as usize + 1).unwrap_err();
    assert_eq!(invalid_kind(&e), Some(InvalidErrorKind::Argument));
    match e.kind() {
        ErrorKind::Invalid { context, .. } => assert_eq!(context, "index exceeds maximum allowed value"),
        other => panic!("unexpected {:?}", other),
    }
    assert!(ConnectorIndex::try_from_index(usize::MAX).is_err());
}

#[test]
fn timeouts_saturate() {
    assert_eq!(timeout_from_millis(0), 0);
    assert_eq!(timeout_from_millis(1500), 1500);
    assert_eq!(timeout_from_millis(i32::MAX as u128), i32::MAX);
    assert_eq!(timeout_from_millis(i32::MAX as u128 + 1), i32::MAX);
    assert_eq!(timeout_from_millis(u128::MAX), i32::MAX);
    assert_eq!(timeout_from_duration(std::time::Duration::from_secs(2)), 2000);
    assert_eq!(timeout_from_duration(std::time::Duration::from_micros(2500)), 2);
    assert_eq!(timeout_from_duration(std::time::Duration::from_secs(u64::MAX)), i32::MAX);
}

#[test]
fn missing_timeouts_wait_forever() {
    assert_eq!(native_timeout_ms(None), INFINITE_TIMEOUT_IN_MS);
    assert_eq!(INFINITE_TIMEOUT_IN_MS, -1);
    assert_eq!(native_timeout_ms(Some(250)), 250);
}

#[test]
fn invoke_results_map_return_codes() {
    assert_eq!(InvokeResult(ReturnCode::Success, 5i32).into_result().unwrap(), 5);
    let e = InvokeResult(ReturnCode::Timeout, 5i32).into_result().unwrap_err();
    assert!(e.is_timeout());
    assert!(!e.is_native_error());
    let e = InvokeResult(ReturnCode::IllegalOperation, ()).into_result().unwrap_err();
    assert!(e.is_native_error());
    assert!(e.is_native_error_code(ReturnCode::IllegalOperation));
    assert!(!e.is_native_error_code(ReturnCode::Error));
    assert_eq!(e.last_error_message(), None);
}

#[test]
fn invoke_results_from_closures() {
    let r = InvokeResult::no_output(|| 11);
    assert_eq!(r.0, ReturnCode::NoData);
    let r = InvokeResult::with_output(|| (0, 3usize));
    assert_eq!(r.0, ReturnCode::Success);
    assert_eq!(r.1, 3);
    let r = InvokeResult::never_fails(|| ());
    assert_eq!(r.0, ReturnCode::Success);
    let r = InvokeResult::with_string_return(|| Some("{}".to_string()));
    assert_eq!(r.0, ReturnCode::Success);
    assert_eq!(r.into_string().unwrap(), "{}");
}

#[test]
fn null_native_strings_are_conversion_errors() {
    let e = InvokeResult(ReturnCode::Success, None).into_string().unwrap_err();
    assert_eq!(invalid_kind(&e), Some(InvalidErrorKind::StringConversion));
    let e = InvokeResult(ReturnCode::Error, Some("x".to_string())).into_string().unwrap_err();
    assert!(e.is_native_error_code(ReturnCode::Error));
}

fn holder(selected: i32, bits: u64, b: i32, s: Option<&str>) -> NativeAnyValueHolder {
    NativeAnyValueHolder {
        selected,
        double_bits: bits,
        bool_value: b,
        string_value: s.map(|x| x.to_string()),
    }
}

#[test]
fn dynamic_values_are_decoded_by_kind() {
    let bits = 2.5f64.to_bits();
    match InvokeResult(ReturnCode::Success, holder(1, bits, 0, None)).into_selected_value() {
        Ok(SelectedValue::Number(b)) => assert_eq!(f64::from_bits(b), 2.5),
        other => panic!("unexpected {:?}", other),
    }
    match InvokeResult(ReturnCode::Success, holder(2, 0, 7, None)).into_selected_value() {
        Ok(SelectedValue::Boolean(b)) => assert!(b),
        other => panic!("unexpected {:?}", other),
    }
    match InvokeResult(ReturnCode::Success, holder(2, 0, 0, None)).into_selected_value() {
        Ok(SelectedValue::Boolean(b)) => assert!(!b),
        other => panic!("unexpected {:?}", other),
    }
    match InvokeResult(ReturnCode::Success, holder(3, 0, 0, Some("BLUE"))).into_selected_value() {
        Ok(SelectedValue::String(s)) => assert_eq!(s, "BLUE"),
        other => panic!("unexpected {:?}", other),
    }
}

#[test]
fn undecodable_dynamic_values_are_assertion_failures() {
    let cases = [
        (holder(3, 0, 0, None), "Returned string value shouldn't be null"),
        (holder(0, 0, 0, None), "Unavaiable AnyValue kind"),
        (holder(9, 0, 0, None), "Unknown AnyValue kind: 9"),
        (holder(-4, 0, 0, None), "Unknown AnyValue kind: -4"),
    ];
    for (h, message) in cases {
        let e = InvokeResult(ReturnCode::Success, h).into_selected_value().unwrap_err();
        match e.kind() {
            ErrorKind::AssertionFailed { context } => assert_eq!(context, message),
            other => panic!("unexpected {:?}", other),
        }
    }
    let e = InvokeResult(ReturnCode::Timeout, holder(1, 0, 0, None))
        .into_selected_value()
        .unwrap_err();
    assert!(e.is_timeout());
}

#[test]
fn no_data_is_no_failure() {
    let no_data = InvokeResult(ReturnCode::NoData, ()).into_result();
    assert!(ignore_no_data(no_data).is_ok());
    let error = InvokeResult(ReturnCode::Error, ()).into_result();
    assert!(ignore_no_data(error).unwrap_err().is_native_error_code(ReturnCode::Error));
    assert!(ignore_no_data(Ok(())).is_ok());
}

#[test]
fn error_predicates() {
    let e = ConnectorError::new(ErrorKind::timeout_error());
    assert!(e.is_timeout());
    assert!(!e.is_entity_not_found());
    let e = ConnectorError::new(ErrorKind::entity_not_found_error("MyReader"));
    assert!(e.is_entity_not_found());
    assert!(!e.is_timeout());
    let e = ConnectorError::new(ErrorKind::native_error(ReturnCode::Error))
        .with_native_message(Some("boom".to_string()));
    assert!(e.is_native_error());
    assert_eq!(e.last_error_message(), Some("boom".to_string()));
}

#[test]
fn error_texts() {
    let e = ConnectorError::new(ErrorKind::native_error(ReturnCode::Error))
        .with_native_message(Some("boom".to_string()));
    assert_eq!(e.to_text(), "Native error: Error (boom)");
    let e = ConnectorError::new(ErrorKind::entity_not_found_error("R"));
    assert_eq!(e.to_text(), "Entity not found: R");
    assert_eq!(ConnectorError::new(ErrorKind::timeout_error()).to_text(), "Timeout");
    let e = ConnectorError::new(ErrorKind::native_error(ReturnCode::Unknown(77)));
    assert_eq!(e.to_text(), "Native error: Unknown error code: 77");
    let e = ConnectorError::new(ErrorKind::lock_poisoned_error("lock"));
    assert_eq!(e.to_text(), "Lock poisoned: lock");
}

#[test]
fn selected_value_constructors() {
    assert!(matches!(SelectedValue::from_bool(true), SelectedValue::Boolean(true)));
    match SelectedValue::from_str("Hello") {
        SelectedValue::String(s) => assert_eq!(s, "Hello"),
        other => panic!("unexpected {:?}", other),
    }
    match SelectedValue::from_string("x".to_string()) {
        SelectedValue::String(s) => assert_eq!(s, "x"),
        other => panic!("unexpected {:?}", other),
    }
}

#[test]
fn empty_native_messages_count_as_none() {
    assert_eq!(nonempty_message(None), None);
    assert_eq!(nonempty_message(Some(String::new())), None);
    assert_eq!(nonempty_message(Some("failure".to_string())), Some("failure".to_string()));
}

#[test]
fn build_identifiers_have_placeholders() {
    let (a, b) = build_versions_of(0, Some("7.3.0".to_string()), None).unwrap();
    assert_eq!(a, "7.3.0");
    assert_eq!(b, "<Unknown Connector>");
    let (a, b) = build_versions_of(0, None, Some("1.0".to_string())).unwrap();
    assert_eq!(a, "<Unknown Client>");
    assert_eq!(b, "1.0");
    let e = build_versions_of(1, None, None).unwrap_err();
    assert!(e.is_native_error_code(ReturnCode::Error));
    assert!(build_versions_of(10, None, None).unwrap_err().is_timeout());
}

#[test]
fn versions_string_of_lookup() {
    let s = versions_string_of(Ok(("A".to_string(), "B".to_string())));
    assert_eq!(s, "RTI Connector for Rust, version 0.1.0\nA\nB");
    let s = versions_string_of(build_versions_of(1, None, None));
    assert_eq!(
        s,
        "RTI Connector for Rust, version 0.1.0\n<Unknown RTI Connext version>\n<Unknown RTI Connector for Rust version>"
    );
}
