//! Tests of the enumeration protocol and the typed property reads.

use ni_syscfg::error::{NiSysCfgApiStatus, NiSystemConfigurationError};
use ni_syscfg::native::{IntReply, NativeModel, TextReply};
use ni_syscfg::native::ResourceProperty;
use ni_syscfg::parameters::BusType;
use ni_syscfg::{ExpertType, NetworkAddressMode, ResourceParameter, SessionConfig};

#[test]
fn enumerator_yields_each_success_then_terminates() {
    let mut native = NativeModel::new();
    let session = SessionConfig::new().connect(&mut native).unwrap();
    // three successful advances, then the end-of-enumeration sentinel
    native.advance_statuses.push(0);
    native.advance_statuses.push(0);
    native.advance_statuses.push(0);
    native.advance_statuses.push(1);
    let mut list = session.find_hardware(&mut native, None, None).unwrap();
    let resources = list.drain(&mut native);
    assert_eq!(resources.len(), 3);
    // terminated: no further advances are attempted
    assert!(list.next(&mut native).is_none());
    for resource in resources {
        resource.close(&mut native);
    }
    list.close(&mut native);
    session.close(&mut native);
}

#[test]
fn enumerator_yields_nothing_when_the_first_call_is_the_sentinel() {
    let mut native = NativeModel::new();
    let session = SessionConfig::new().connect(&mut native).unwrap();
    native.advance_statuses.push(1);
    let mut list = session.find_hardware(&mut native, None, None).unwrap();
    let resources = list.drain(&mut native);
    assert_eq!(resources.len(), 0);
    list.close(&mut native);
    session.close(&mut native);
}

#[test]
fn enumerator_stops_silently_on_a_native_failure() {
    let mut native = NativeModel::new();
    let session = SessionConfig::new().connect(&mut native).unwrap();
    native.advance_statuses.push(0);
    native.advance_statuses.push(-2147467259);
    native.advance_statuses.push(0);
    let mut list = session.find_hardware(&mut native, None, None).unwrap();
    // one resource, then the failure ends the sequence without an error
    assert!(list.next(&mut native).is_some());
    assert!(list.next(&mut native).is_none());
    assert!(list.next(&mut native).is_none());
    list.close(&mut native);
    session.close(&mut native);
}

#[test]
fn other_success_statuses_still_yield_a_resource() {
    let mut native = NativeModel::new();
    let session = SessionConfig::new().connect(&mut native).unwrap();
    // an informational success code that is not the sentinel
    native.advance_statuses.push(263024);
    native.advance_statuses.push(1);
    let mut list = session.find_hardware(&mut native, None, None).unwrap();
    let resources = list.drain(&mut native);
    assert_eq!(resources.len(), 1);
    for resource in resources {
        resource.close(&mut native);
    }
    list.close(&mut native);
    session.close(&mut native);
}

fn one_resource(
    native: &mut NativeModel,
    session: &ni_syscfg::Session,
) -> ni_syscfg::HardwareResource {
    native.advance_statuses.push(0);
    native.advance_statuses.push(1);
    let mut list = session
        .find_hardware(native, None, Some(&[ExpertType::NiDaqmx]))
        .unwrap();
    let mut resources = list.drain(native);
    list.close(native);
    resources.remove(0)
}

#[test]
fn resource_name_decodes_the_buffer() {
    let mut native = NativeModel::new();
    let session = SessionConfig::new().connect(&mut native).unwrap();
    let resource = one_resource(&mut native, &session);
    native.text_replies.push(TextReply { status: 0, text: b"PXI1Slot2".to_vec() });
    assert_eq!(resource.name(&mut native).unwrap(), "PXI1Slot2");
    resource.close(&mut native);
    session.close(&mut native);
}

#[test]
fn resource_name_rejects_text_that_is_not_valid() {
    let mut native = NativeModel::new();
    let session = SessionConfig::new().connect(&mut native).unwrap();
    let resource = one_resource(&mut native, &session);
    native.text_replies.push(TextReply { status: 0, text: vec![0xFF, 0xFE] });
    assert_eq!(
        resource.name(&mut native),
        Err(NiSystemConfigurationError::EncodingError)
    );
    resource.close(&mut native);
    session.close(&mut native);
}

#[test]
fn resource_name_surfaces_the_native_failure() {
    let mut native = NativeModel::new();
    let session = SessionConfig::new().connect(&mut native).unwrap();
    let resource = one_resource(&mut native, &session);
    native.text_replies.push(TextReply { status: -2147467261, text: Vec::new() });
    assert_eq!(
        resource.name(&mut native),
        Err(NiSystemConfigurationError::ApiError(
            NiSysCfgApiStatus::NullPointer
        ))
    );
    resource.close(&mut native);
    session.close(&mut native);
}

#[test]
fn bus_type_with_a_table_entry_returns_the_variant() {
    let mut native = NativeModel::new();
    let session = SessionConfig::new().connect(&mut native).unwrap();
    let resource = one_resource(&mut native, &session);
    native.int_replies.push(IntReply { status: 0, value: 5 });
    assert_eq!(
        resource.connects_to_bus_type(&mut native).unwrap(),
        BusType::Serial
    );
    native.int_replies.push(IntReply { status: 0, value: 16 });
    assert_eq!(
        resource.connects_to_bus_type(&mut native).unwrap(),
        BusType::Slsc
    );
    resource.close(&mut native);
    session.close(&mut native);
}

#[test]
fn bus_type_without_a_table_entry_is_an_unexpected_enum_value() {
    let mut native = NativeModel::new();
    let session = SessionConfig::new().connect(&mut native).unwrap();
    let resource = one_resource(&mut native, &session);
    for raw in [17, 99, -1, i32::MAX, i32::MIN] {
        native.int_replies.push(IntReply { status: 0, value: raw });
        assert_eq!(
            resource.connects_to_bus_type(&mut native),
            Err(NiSystemConfigurationError::UnexpectedEnumValue(raw))
        );
    }
    resource.close(&mut native);
    session.close(&mut native);
}

#[test]
fn address_mode_decodes_through_its_own_table() {
    let mut native = NativeModel::new();
    let session = SessionConfig::new().connect(&mut native).unwrap();
    native.int_replies.push(IntReply { status: 0, value: 1 });
    assert_eq!(
        session.address_mode(&mut native).unwrap(),
        NetworkAddressMode::Static
    );
    native.int_replies.push(IntReply { status: 0, value: 8 });
    assert_eq!(
        session.address_mode(&mut native).unwrap(),
        NetworkAddressMode::DhcpOnly
    );
    native.int_replies.push(IntReply { status: 0, value: 77 });
    assert_eq!(
        session.address_mode(&mut native),
        Err(NiSystemConfigurationError::UnexpectedEnumValue(77))
    );
    session.close(&mut native);
}

#[test]
fn network_properties_read_as_text() {
    let mut native = NativeModel::new();
    let session = SessionConfig::new().connect(&mut native).unwrap();
    native.text_replies.push(TextReply { status: 0, text: b"00:11:22:33:44:55".to_vec() });
    native.text_replies.push(TextReply { status: 0, text: b"10.0.0.9".to_vec() });
    assert_eq!(session.mac_address(&mut native).unwrap(), "00:11:22:33:44:55");
    assert_eq!(session.ip_address(&mut native).unwrap(), "10.0.0.9");
    session.close(&mut native);
}

#[test]
fn test_list_hardware() {
    let mut native = NativeModel::new();
    let session = SessionConfig::new()
        .connect(&mut native)
        .expect("Couldn't Open Session");
    native.advance_statuses.push(0);
    native.advance_statuses.push(1);
    native.text_replies.push(TextReply { status: 0, text: b"Dev1".to_vec() });
    native.int_replies.push(IntReply { status: 0, value: 1 });

    let mut list = session
        .find_hardware(&mut native, None, Some(&[ExpertType::NiDaqmx]))
        .expect("Couldn't List Hardware");
    while let Some(hardware) = list.next(&mut native) {
        let name = hardware
            .name(&mut native)
            .expect("Couldn't Get hardware Name");
        let bus_type = hardware
            .connects_to_bus_type(&mut native)
            .expect("Couldnt get bus type");
        println!("Hardware found {name} connected to {bus_type:?}");
        hardware.close(&mut native);
    }
    list.close(&mut native);
    session.close(&mut native);
}

#[test]
fn test_list_hardware_with_filter() {
    let mut native = NativeModel::new();
    let session = SessionConfig::new().connect(&mut native).unwrap();
    let filter = session.create_filter(&mut native).unwrap();
    let filter = filter.set_mode(ni_syscfg::FilterMode::MatchValuesAny);
    native.advance_statuses.push(0);
    native.advance_statuses.push(1);
    native.text_replies.push(TextReply { status: 0, text: b"Dev1".to_vec() });
    let mut hardware_list = session
        .find_hardware(&mut native, Some(&filter), None)
        .unwrap();

    while let Some(hardware) = hardware_list.next(&mut native) {
        println!("Found {}", hardware.name(&mut native).unwrap());
        hardware.close(&mut native);
    }
    hardware_list.close(&mut native);
    filter.close(&mut native);
    session.close(&mut native);
}

#[test]
fn get_parameter_reads_any_typed_resource_property() {
    let mut native = NativeModel::new();
    let session = SessionConfig::new().connect(&mut native).unwrap();
    let resource = one_resource(&mut native, &session);
    native.int_replies.push(IntReply { status: 0, value: 6 });
    let parameter: ResourceParameter<BusType> =
        ResourceParameter::new(ResourceProperty::ConnectsToBusType);
    assert_eq!(
        resource.get_parameter(&mut native, parameter).unwrap(),
        BusType::TcpIp
    );
    native.int_replies.push(IntReply { status: 0, value: 42 });
    let parameter: ResourceParameter<i32> =
        ResourceParameter::new(ResourceProperty::ConnectsToBusType);
    assert_eq!(resource.get_parameter(&mut native, parameter).unwrap(), 42);
    resource.close(&mut native);
    session.close(&mut native);
}

#[test]
fn remaining_system_properties_read_as_text() {
    let mut native = NativeModel::new();
    let session = SessionConfig::new().connect(&mut native).unwrap();
    native.text_replies.push(TextReply { status: 0, text: b"cRIO-9045".to_vec() });
    native.text_replies.push(TextReply { status: 0, text: b"255.255.255.0".to_vec() });
    native.text_replies.push(TextReply { status: 0, text: b"10.0.0.1".to_vec() });
    native.text_replies.push(TextReply { status: 0, text: b"10.0.0.2".to_vec() });
    assert_eq!(session.product_name(&mut native).unwrap(), "cRIO-9045");
    assert_eq!(session.subnet_mask(&mut native).unwrap(), "255.255.255.0");
    assert_eq!(session.gateway(&mut native).unwrap(), "10.0.0.1");
    assert_eq!(session.dns_server(&mut native).unwrap(), "10.0.0.2");
    session.close(&mut native);
}

#[test]
fn real_time_session_reads_the_system_state() {
    let mut native = NativeModel::new();
    let session = SessionConfig::new().connect(&mut native).unwrap();
    let real_time = ni_syscfg::RealTimeSession::from_session(&session);
    native.text_replies.push(TextReply { status: 0, text: b"Running".to_vec() });
    assert_eq!(real_time.status(&mut native).unwrap(), "Running");
    session.close(&mut native);
}
