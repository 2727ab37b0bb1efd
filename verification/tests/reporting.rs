use cattleya_js::Cattleya;
use cattleya_js::DispatchPlan;
use cattleya_js::ErrorsLevel;
use cattleya_js::Resolution;
use cattleya_js::adapter::AdapterError;
use cattleya_js::adapter::from_native_error;

#[test]
fn canonical_strings_are_the_expected_literals() {
    assert_eq!(ErrorsLevel::Severe.to_canonical_string(), "Severe");
    assert_eq!(ErrorsLevel::Error.to_canonical_string(), "Error");
    assert_eq!(ErrorsLevel::Warning.to_canonical_string(), "Warning");
    assert_eq!(ErrorsLevel::Info.to_canonical_string(), "Info");
    assert_eq!(ErrorsLevel::Debug.to_canonical_string(), "Debug");
    assert_eq!(ErrorsLevel::Verbose.to_canonical_string(), "Verbose");
}

#[test]
fn canonical_strings_are_pairwise_distinct() {
    let levels = [
        ErrorsLevel::Severe,
        ErrorsLevel::Error,
        ErrorsLevel::Warning,
        ErrorsLevel::Info,
        ErrorsLevel::Debug,
        ErrorsLevel::Verbose,
    ];
    for i in 0..levels.len() {
        for j in 0..levels.len() {
            if i != j {
                assert_ne!(
                    levels[i].to_canonical_string(),
                    levels[j].to_canonical_string()
                );
            }
        }
    }
}

#[test]
fn native_error_with_message_and_stack_dispatches_full_record() {
    let client = Cattleya;
    let plan = client.plan_native_error(Some("boom".to_string()), Some("at foo".to_string()));
    match plan {
        DispatchPlan::Send(record) => {
            assert_eq!(record.level, "Error");
            assert_eq!(record.message, "boom");
            assert_eq!(record.stack_trace, Some("at foo".to_string()));
        }
        DispatchPlan::Reject(text) => panic!("unexpected rejection: {}", text),
    }
}

#[test]
fn native_error_without_message_rejects_at_once() {
    let client = Cattleya;
    let plan = client.plan_native_error(None, Some("at foo".to_string()));
    match plan {
        DispatchPlan::Send(_) => panic!("a record must not be dispatched without a message"),
        DispatchPlan::Reject(text) => assert_eq!(text, "Could not get error message"),
    }
}

#[test]
fn native_error_without_stack_dispatches_record_with_absent_stack() {
    let client = Cattleya;
    let plan = client.plan_native_error(Some("boom".to_string()), None);
    match plan {
        DispatchPlan::Send(record) => {
            assert_eq!(record.level, "Error");
            assert_eq!(record.message, "boom");
            assert_eq!(record.stack_trace, None);
        }
        DispatchPlan::Reject(text) => panic!("unexpected rejection: {}", text),
    }
    match client.complete_send(Ok(())) {
        Resolution::Resolved => {}
        Resolution::Rejected(text) => panic!("unexpected rejection: {}", text),
    }
}

#[test]
fn native_error_with_empty_stack_dispatches_record_with_absent_stack() {
    let client = Cattleya;
    let plan = client.plan_native_error(Some("boom".to_string()), Some(String::new()));
    match plan {
        DispatchPlan::Send(record) => assert_eq!(record.stack_trace, None),
        DispatchPlan::Reject(text) => panic!("unexpected rejection: {}", text),
    }
}

#[test]
fn adapter_fails_only_for_a_missing_message() {
    assert!(matches!(
        from_native_error(None, None),
        Err(AdapterError::MissingMessage)
    ));
    assert!(matches!(
        from_native_error(None, Some("at foo".to_string())),
        Err(AdapterError::MissingMessage)
    ));
    let record = from_native_error(Some(String::new()), None).unwrap();
    assert_eq!(record.level, "Error");
    assert_eq!(record.message, "");
    assert_eq!(record.stack_trace, None);
}

#[test]
fn report_by_level_builds_the_record_the_custom_entry_point_builds() {
    let client = Cattleya;
    let by_level = client.log(ErrorsLevel::Warning, "disk low".to_string(), None);
    let by_custom = client.custom_error("Warning".to_string(), "disk low".to_string(), None);
    assert_eq!(by_level.level, by_custom.level);
    assert_eq!(by_level.message, by_custom.message);
    assert_eq!(by_level.stack_trace, by_custom.stack_trace);
}

#[test]
fn custom_entry_point_accepts_free_form_levels_and_empty_messages() {
    let client = Cattleya;
    let record = client.custom_error(
        "totally custom".to_string(),
        String::new(),
        Some("trace".to_string()),
    );
    assert_eq!(record.level, "totally custom");
    assert_eq!(record.message, "");
    assert_eq!(record.stack_trace, Some("trace".to_string()));
}

#[test]
fn transport_failure_text_is_surfaced_verbatim_for_every_entry_point() {
    let client = Cattleya;

    let custom = client.custom_error("Info".to_string(), "m".to_string(), None);
    let by_level = client.log(ErrorsLevel::Debug, "m".to_string(), None);
    let native = client.plan_native_error(Some("m".to_string()), None);
    assert!(matches!(native, DispatchPlan::Send(_)));
    assert_eq!(custom.message, "m");
    assert_eq!(by_level.message, "m");

    for _ in 0..3 {
        match client.complete_send(Err("network unreachable".to_string())) {
            Resolution::Resolved => panic!("a transport failure must not resolve"),
            Resolution::Rejected(text) => assert_eq!(text, "network unreachable"),
        }
    }
}

#[test]
fn transport_success_resolves_with_no_payload() {
    let client = Cattleya;
    assert!(matches!(client.complete_send(Ok(())), Resolution::Resolved));
}
