//! Tests of the session layer: expert-list serialization, the connect
//! protocol, and the scoped release of every handle on every path.

use ni_syscfg::error::{NiSysCfgApiStatus, NiSystemConfigurationError};
use ni_syscfg::native::{IntReply, NativeModel, TextReply};
use ni_syscfg::session::expert_list_to_text;
use ni_syscfg::{ExpertType, FilterMode, Locale, SessionConfig};

#[test]
fn expert_list_to_string() {
    //use a list of unknown so we know what it will produce.
    let list = vec![
        ExpertType::Unknown("test1".to_string()),
        ExpertType::Unknown("test2".to_string()),
    ];

    let result = expert_list_to_text(&list).unwrap();

    assert_eq!(result, "test1,test2");
}

#[test]
fn expert_list_to_string_single() {
    //use a list of unknown so we know what it will produce.
    let list = vec![ExpertType::Unknown("test1".to_string())];

    let result = expert_list_to_text(&list).unwrap();

    assert_eq!(result, "test1");
}

#[test]
fn expert_list_to_string_empty() {
    //use a list of unknown so we know what it will produce.
    let list = vec![];

    let result = expert_list_to_text(&list).unwrap();

    assert_eq!(result, "");
}

#[test]
fn expert_list_to_string_three() {
    let list = vec![
        ExpertType::Unknown("a".to_string()),
        ExpertType::Unknown("b".to_string()),
        ExpertType::Unknown("c".to_string()),
    ];

    assert_eq!(expert_list_to_text(&list).unwrap(), "a,b,c");
}

#[test]
fn expert_list_known_names_in_order() {
    let list = vec![ExpertType::NiDaqmx, ExpertType::CRio, ExpertType::NiXNET];

    assert_eq!(expert_list_to_text(&list).unwrap(), "daqmx,crio,xnet");
}

#[test]
fn expert_list_rejects_interior_terminator() {
    let list = vec![ExpertType::Unknown("bad\0name".to_string())];

    assert_eq!(
        expert_list_to_text(&list),
        Err(NiSystemConfigurationError::EncodingError)
    );
}

#[test]
fn connect_smoke_test() {
    let mut native = NativeModel::new();
    let session = SessionConfig::new().connect(&mut native).unwrap();
    assert!(native.is_open_handle(1));
    assert_eq!(native.connect_log.len(), 1);
    assert_eq!(native.connect_log[0].target, "");
    assert_eq!(native.connect_log[0].username, None);
    assert_eq!(native.connect_log[0].timeout_ms, 1000);
    session.close(&mut native);
    assert!(!native.is_open_handle(1));
    assert_eq!(native.count_closed(1), 1);
}

#[test]
fn connect_marshals_the_configuration() {
    let mut native = NativeModel::new();
    let config = SessionConfig::new()
        .target("10.0.0.9")
        .username("admin")
        .unwrap()
        .password("labview")
        .unwrap()
        .locale(Locale::German)
        .force_refresh(true)
        .timeout_ms(2500);
    let session = config.connect(&mut native).unwrap();
    let request = &native.connect_log[0];
    assert_eq!(request.target, "10.0.0.9");
    assert_eq!(request.username.as_deref(), Some("admin"));
    assert_eq!(request.password.as_deref(), Some("labview"));
    assert_eq!(request.locale_code, 1031);
    assert_eq!(request.force_refresh_code, 1);
    assert_eq!(request.timeout_ms, 2500);
    session.close(&mut native);
}

#[test]
fn connect_rejects_credentials_with_interior_terminator() {
    assert_eq!(
        SessionConfig::new().username("ad\0min").err(),
        Some(NiSystemConfigurationError::EncodingError)
    );
    assert_eq!(
        SessionConfig::new().password("p\0w").err(),
        Some(NiSystemConfigurationError::EncodingError)
    );
    let mut native = NativeModel::new();
    let config = SessionConfig::new().target("bad\0target");
    assert_eq!(
        config.connect(&mut native).err(),
        Some(NiSystemConfigurationError::EncodingError)
    );
    // no native call was made at all
    assert_eq!(native.connect_log.len(), 0);
}

#[test]
fn connect_failure_maps_the_status() {
    let mut native = NativeModel::new();
    native.call_statuses.push(-2147220460); // SystemNotReachable
    let result = SessionConfig::new().target("10.0.0.9").connect(&mut native);
    assert_eq!(
        result.err(),
        Some(NiSystemConfigurationError::ApiError(
            NiSysCfgApiStatus::SystemNotReachable
        ))
    );
    // the failed connect issued no handle
    assert!(!native.is_open_handle(1));
}

#[test]
fn find_logs_the_joined_expert_list() {
    let mut native = NativeModel::new();
    let session = SessionConfig::new().connect(&mut native).unwrap();
    let experts = vec![
        ExpertType::Unknown("a".to_string()),
        ExpertType::Unknown("b".to_string()),
        ExpertType::Unknown("c".to_string()),
    ];
    let list = session
        .find_hardware(&mut native, None, Some(&experts))
        .unwrap();
    let request = &native.find_log[0];
    assert_eq!(request.experts, "a,b,c");
    assert_eq!(request.mode_code, 1); // match-all without a filter
    assert_eq!(request.filter, 0); // no native filter handle
    list.close(&mut native);
    session.close(&mut native);
}

#[test]
fn find_uses_the_filter_mode_and_handle() {
    let mut native = NativeModel::new();
    let session = SessionConfig::new().connect(&mut native).unwrap();
    let filter = session.create_filter(&mut native).unwrap();
    assert_eq!(filter.mode(), FilterMode::MatchValuesAll);
    let filter = filter.set_mode(FilterMode::MatchValuesAny);
    assert_eq!(filter.mode(), FilterMode::MatchValuesAny);
    let list = session
        .find_hardware(&mut native, Some(&filter), None)
        .unwrap();
    let request = &native.find_log[0];
    assert_eq!(request.mode_code, 2);
    assert_eq!(request.filter, 2); // the filter handle issued after the session's
    assert_eq!(request.experts, "");
    list.close(&mut native);
    filter.close(&mut native);
    session.close(&mut native);
}

/// Close runs exactly once on the path where the whole operation
/// completes normally.
#[test]
fn scoped_close_on_normal_completion() {
    let mut native = NativeModel::new();
    let session = SessionConfig::new().connect(&mut native).unwrap();
    // two resources, then the end-of-enumeration sentinel
    native.advance_statuses.push(0);
    native.advance_statuses.push(0);
    native.advance_statuses.push(1);
    native.text_replies.push(TextReply { status: 0, text: b"one".to_vec() });
    native.text_replies.push(TextReply { status: 0, text: b"two".to_vec() });
    let names = session.list_hardware_names(&mut native, None, None).unwrap();
    assert_eq!(names, vec!["one".to_string(), "two".to_string()]);
    // enumeration handle 2 and resource handles 3 and 4: closed exactly once
    assert_eq!(native.count_closed(2), 1);
    assert_eq!(native.count_closed(3), 1);
    assert_eq!(native.count_closed(4), 1);
    assert!(native.is_open_handle(1)); // the session stays open
    session.close(&mut native);
    assert_eq!(native.count_closed(1), 1);
}

/// Close runs exactly once on the path where the operation returns
/// early, before any enumeration handle exists.
#[test]
fn scoped_close_on_early_return() {
    let mut native = NativeModel::new();
    let session = SessionConfig::new().connect(&mut native).unwrap();
    native.call_statuses.push(-2147467259); // the find call fails
    let result = session.list_hardware_names(&mut native, None, None);
    assert_eq!(
        result.err(),
        Some(NiSystemConfigurationError::ApiError(NiSysCfgApiStatus::Fail))
    );
    // nothing but the session is open, and nothing was ever closed
    assert!(native.is_open_handle(1));
    assert_eq!(native.open.len(), 1);
    assert_eq!(native.closed.len(), 0);
    session.close(&mut native);
    assert_eq!(native.count_closed(1), 1);
}

/// Close runs exactly once on the path where a failure is propagated
/// from the middle of the operation.
#[test]
fn scoped_close_on_propagated_failure() {
    let mut native = NativeModel::new();
    let session = SessionConfig::new().connect(&mut native).unwrap();
    native.advance_statuses.push(0);
    native.advance_statuses.push(0);
    native.advance_statuses.push(1);
    native.text_replies.push(TextReply { status: 0, text: b"one".to_vec() });
    native.text_replies.push(TextReply { status: -2147467259, text: Vec::new() });
    let result = session.list_hardware_names(&mut native, None, None);
    assert_eq!(
        result.err(),
        Some(NiSystemConfigurationError::ApiError(NiSysCfgApiStatus::Fail))
    );
    // the enumeration handle and both resource handles still closed once
    assert_eq!(native.count_closed(2), 1);
    assert_eq!(native.count_closed(3), 1);
    assert_eq!(native.count_closed(4), 1);
    assert!(native.is_open_handle(1));
    session.close(&mut native);
}

#[test]
fn session_properties_read_through_the_typed_interface() {
    let mut native = NativeModel::new();
    let session = SessionConfig::new().connect(&mut native).unwrap();
    native.text_replies.push(TextReply { status: 0, text: b"controller-7".to_vec() });
    native.text_replies.push(TextReply { status: 0, text: b"03F1A2".to_vec() });
    native.int_replies.push(IntReply { status: 0, value: 1 });
    native.int_replies.push(IntReply { status: 0, value: 0 });
    native.int_replies.push(IntReply { status: 0, value: 7706 });
    assert_eq!(session.hostname(&mut native).unwrap(), "controller-7");
    assert_eq!(session.serial_number(&mut native).unwrap(), "03F1A2");
    assert_eq!(session.locked(&mut native).unwrap(), true);
    assert_eq!(session.locking_supported(&mut native).unwrap(), false);
    assert_eq!(session.product_code(&mut native).unwrap(), 7706);
    session.close(&mut native);
}

#[test]
fn closing_a_handle_twice_fails_the_second_time() {
    let mut native = NativeModel::new();
    let session = SessionConfig::new().connect(&mut native).unwrap();
    session.close(&mut native);
    assert_eq!(native.count_closed(1), 1);
    // the wrapper is consumed, so only the model can even attempt this;
    // the native layer refuses a close of a handle that is not open
    assert_eq!(
        native.close_handle(1),
        ni_syscfg::native::BAD_HANDLE_CODE
    );
    assert_eq!(native.count_closed(1), 1);
}
