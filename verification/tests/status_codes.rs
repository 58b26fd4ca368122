use cahal::os_err::{
    result_from_err_code, result_to_err_code, OSStatus, OSStatusError, ResultExt,
    AUDIO_DEVICE_PERMISSIONS_ERROR, AUDIO_DEVICE_UNSUPPORTED_FORMAT_ERROR,
    AUDIO_HARDWARE_BAD_DEVICE_ERROR, AUDIO_HARDWARE_BAD_OBJECT_ERROR,
    AUDIO_HARDWARE_BAD_PROPERTY_SIZE_ERROR, AUDIO_HARDWARE_BAD_STREAM_ERROR,
    AUDIO_HARDWARE_ILLEGAL_OPERATION_ERROR, AUDIO_HARDWARE_NOT_READY_ERROR,
    AUDIO_HARDWARE_NOT_RUNNING_ERROR, AUDIO_HARDWARE_UNKNOWN_PROPERTY_ERROR,
    AUDIO_HARDWARE_UNSPECIFIED_ERROR, AUDIO_HARDWARE_UNSUPPORTED_OPERATION_ERROR,
};

fn four_cc(text: &[u8; 4]) -> u32 {
    u32::from_be_bytes(*text)
}

#[test]
fn zero_is_success() {
    assert_eq!(result_from_err_code(0), Ok(()));
    assert_eq!(result_to_err_code(Ok(())), 0);
}

#[test]
fn nonzero_code_is_the_error_with_that_code() {
    let status = result_from_err_code(1852797029);
    let error = status.unwrap_err();
    assert_eq!(error.code(), 1852797029);
    assert_eq!(error.code(), AUDIO_HARDWARE_ILLEGAL_OPERATION_ERROR);
    assert_eq!(error, OSStatusError::hw_illegal_operation());
}

#[test]
fn negative_code_keeps_its_bits() {
    let status = result_from_err_code(-1);
    assert_eq!(status.unwrap_err().code(), 0xFFFF_FFFF);
    assert_eq!(result_to_err_code(result_from_err_code(-1)), -1);
    assert_eq!(result_to_err_code(result_from_err_code(i32::MIN)), i32::MIN);
    assert_eq!(result_from_err_code(i32::MIN).unwrap_err().code(), 0x8000_0000);
}

#[test]
fn every_code_survives_the_round_trip() {
    for code in [0, 1, -1, 7, 1852797029, i32::MAX, i32::MIN, -2147483644] {
        assert_eq!(result_to_err_code(result_from_err_code(code)), code);
    }
}

#[test]
fn error_new_refuses_zero() {
    assert!(OSStatusError::new(0).is_none());
    assert_eq!(OSStatusError::new(9).unwrap().code(), 9);
}

#[test]
fn error_codes_are_the_four_character_codes() {
    assert_eq!(AUDIO_HARDWARE_NOT_RUNNING_ERROR, four_cc(b"stop"));
    assert_eq!(AUDIO_HARDWARE_UNSPECIFIED_ERROR, four_cc(b"what"));
    assert_eq!(AUDIO_HARDWARE_UNKNOWN_PROPERTY_ERROR, four_cc(b"who?"));
    assert_eq!(AUDIO_HARDWARE_BAD_PROPERTY_SIZE_ERROR, four_cc(b"!siz"));
    assert_eq!(AUDIO_HARDWARE_ILLEGAL_OPERATION_ERROR, four_cc(b"nope"));
    assert_eq!(AUDIO_HARDWARE_BAD_OBJECT_ERROR, four_cc(b"!obj"));
    assert_eq!(AUDIO_HARDWARE_BAD_DEVICE_ERROR, four_cc(b"!dev"));
    assert_eq!(AUDIO_HARDWARE_BAD_STREAM_ERROR, four_cc(b"!str"));
    assert_eq!(AUDIO_HARDWARE_UNSUPPORTED_OPERATION_ERROR, four_cc(b"unop"));
    assert_eq!(AUDIO_HARDWARE_NOT_READY_ERROR, four_cc(b"nrdy"));
    assert_eq!(AUDIO_DEVICE_UNSUPPORTED_FORMAT_ERROR, four_cc(b"!dat"));
    assert_eq!(AUDIO_DEVICE_PERMISSIONS_ERROR, four_cc(b"!hog"));
}

#[test]
fn every_named_error_has_its_code() {
    assert_eq!(OSStatusError::hw_not_running().code(), 0x73746F70);
    assert_eq!(OSStatusError::hw_unspecified().code(), 0x77686174);
    assert_eq!(OSStatusError::hw_unknown_property().code(), 0x77686F3F);
    assert_eq!(OSStatusError::hw_bad_property_size().code(), 0x2173697A);
    assert_eq!(OSStatusError::hw_illegal_operation().code(), 0x6E6F7065);
    assert_eq!(OSStatusError::hw_bad_object().code(), 0x216F626A);
    assert_eq!(OSStatusError::hw_bad_device().code(), 0x21646576);
    assert_eq!(OSStatusError::hw_bad_stream().code(), 0x21737472);
    assert_eq!(OSStatusError::hw_unsupported_operation().code(), 0x756E6F70);
    assert_eq!(OSStatusError::hw_not_ready().code(), 0x6E726479);
    assert_eq!(OSStatusError::dev_unsupported_format().code(), 0x21646174);
    assert_eq!(OSStatusError::dev_permissions().code(), 0x21686F67);
}

#[test]
fn error_goes_out_as_its_code() {
    let status: OSStatus = Err(OSStatusError::hw_bad_object());
    assert_eq!(result_to_err_code(status), 0x216F626A);
}

#[test]
fn replace_err_keeps_success() {
    let fine: Result<u8, &str> = Ok(3);
    assert_eq!(fine.replace_err(OSStatusError::hw_bad_device()), Ok(3));
}

#[test]
fn replace_err_swaps_the_error() {
    let bad: Result<u8, &str> = Err("overflow");
    assert_eq!(
        bad.replace_err(OSStatusError::hw_bad_property_size()),
        Err(OSStatusError::hw_bad_property_size())
    );
}
