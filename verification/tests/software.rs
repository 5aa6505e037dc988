//! Tests of the system-image operations and the simple-string buffer
//! protocol.

use ni_syscfg::error::{NiSysCfgApiStatus, NiSystemConfigurationError};
use ni_syscfg::native::{ImageRequest, NativeModel, SIMPLE_STRING_FILL, SIMPLE_STRING_LENGTH};
use ni_syscfg::parameters::new_simple_string;
use ni_syscfg::software::{ImageInfo, NetworkInterfaceSettings};
use ni_syscfg::strings::decode_simple_string;
use ni_syscfg::SessionConfig;

fn image_data() -> ImageInfo {
    ImageInfo {
        title: "test".to_owned(),
        id: "".to_owned(),
        description: "Test Image".to_owned(),
        version: "1.0".to_owned(),
    }
}

#[test]
fn get_system_image_marshals_the_request() {
    let mut native = NativeModel::new();
    let session = SessionConfig::new().connect(&mut native).unwrap();
    session
        .get_system_image(
            &mut native,
            "/tmp/image-folder",
            &image_data(),
            None,
            &["/c", "/C"],
            true,
            false,
        )
        .unwrap();
    assert_eq!(native.image_log.len(), 1);
    match &native.image_log[0] {
        ImageRequest::Capture {
            title,
            description,
            version,
            auto_restart_code,
            path,
            passphrase,
            excluded,
            overwrite_code,
            ..
        } => {
            assert_eq!(title, "test");
            assert_eq!(description, "Test Image");
            assert_eq!(version, "1.0");
            assert_eq!(*auto_restart_code, 1);
            assert_eq!(path, "/tmp/image-folder");
            assert_eq!(*passphrase, None);
            assert_eq!(excluded, &vec!["/c".to_string(), "/C".to_string()]);
            assert_eq!(*overwrite_code, 0);
        },
        ImageRequest::Apply { .. } => panic!("expected a capture request"),
    }
    session.close(&mut native);
}

#[test]
fn get_system_image_surfaces_the_native_failure() {
    let mut native = NativeModel::new();
    let session = SessionConfig::new().connect(&mut native).unwrap();
    native.call_statuses.push(-2147220451); // FileOverwrite
    let result = session.get_system_image(
        &mut native,
        "/tmp/image-folder",
        &image_data(),
        None,
        &[],
        true,
        false,
    );
    assert_eq!(
        result,
        Err(NiSystemConfigurationError::ApiError(
            NiSysCfgApiStatus::FileOverwrite
        ))
    );
    session.close(&mut native);
}

#[test]
fn get_system_image_rejects_interior_terminators() {
    let mut native = NativeModel::new();
    let session = SessionConfig::new().connect(&mut native).unwrap();
    let result = session.get_system_image(
        &mut native,
        "/tmp/ima\0ge",
        &image_data(),
        None,
        &[],
        true,
        false,
    );
    assert_eq!(result, Err(NiSystemConfigurationError::EncodingError));
    let result = session.get_system_image(
        &mut native,
        "/tmp/image",
        &image_data(),
        Some("pass\0phrase"),
        &[],
        true,
        false,
    );
    assert_eq!(result, Err(NiSystemConfigurationError::EncodingError));
    let result = session.get_system_image(
        &mut native,
        "/tmp/image",
        &image_data(),
        None,
        &["/c", "/\0C"],
        true,
        false,
    );
    assert_eq!(result, Err(NiSystemConfigurationError::EncodingError));
    // none of the rejected requests reached the native layer
    assert_eq!(native.image_log.len(), 0);
    session.close(&mut native);
}

#[test]
fn set_system_image_marshals_the_request() {
    let mut native = NativeModel::new();
    let session = SessionConfig::new().connect(&mut native).unwrap();
    session
        .set_system_image(
            &mut native,
            "/tmp/image-folder",
            Some("test123"),
            &["/c"],
            true,
            false,
            NetworkInterfaceSettings::PreservePrimaryPreserveOthers,
        )
        .unwrap();
    match &native.image_log[0] {
        ImageRequest::Apply {
            auto_restart_code,
            path,
            passphrase,
            excluded,
            original_system_only_code,
            network_settings_code,
            ..
        } => {
            assert_eq!(*auto_restart_code, 1);
            assert_eq!(path, "/tmp/image-folder");
            assert_eq!(passphrase.as_deref(), Some("test123"));
            assert_eq!(excluded, &vec!["/c".to_string()]);
            assert_eq!(*original_system_only_code, 0);
            assert_eq!(*network_settings_code, 2);
        },
        ImageRequest::Capture { .. } => panic!("expected an apply request"),
    }
    session.close(&mut native);
}

#[test]
fn simple_string_buffer_has_the_documented_shape() {
    let buffer = new_simple_string();
    assert_eq!(buffer.len(), SIMPLE_STRING_LENGTH);
    assert!(buffer.iter().all(|&b| b == SIMPLE_STRING_FILL));
}

#[test]
fn simple_string_decodes_up_to_the_first_terminator() {
    let mut buffer = new_simple_string();
    buffer[0] = b'h';
    buffer[1] = b'i';
    buffer[2] = 0;
    assert_eq!(decode_simple_string(&buffer).unwrap(), "hi");
}

#[test]
fn simple_string_without_a_terminator_is_an_encoding_failure() {
    let buffer = new_simple_string();
    assert_eq!(
        decode_simple_string(&buffer),
        Err(NiSystemConfigurationError::EncodingError)
    );
}

#[test]
fn simple_string_with_invalid_text_is_an_encoding_failure() {
    let mut buffer = new_simple_string();
    buffer[0] = 0xC0;
    buffer[1] = 0xAF;
    buffer[2] = 0;
    assert_eq!(
        decode_simple_string(&buffer),
        Err(NiSystemConfigurationError::EncodingError)
    );
}
