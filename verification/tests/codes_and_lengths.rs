use gc_channel::outcome::{
    CODE_BUFFER_TOO_SMALL, CODE_INVALID_ARGUMENT, CODE_NO_MESSAGE, CODE_SERVICE_UNAVAILABLE,
    CODE_SUCCESS,
};
use gc_channel::service::{buffer_capacity, payload_length};
use gc_channel::OperationResult;

#[test]
fn known_codes_decode_to_their_outcomes() {
    assert_eq!(OperationResult::from_code(0), OperationResult::Success);
    assert_eq!(OperationResult::from_code(1), OperationResult::NoMessage);
    assert_eq!(OperationResult::from_code(2), OperationResult::BufferTooSmall);
    assert_eq!(OperationResult::from_code(3), OperationResult::ServiceUnavailable);
    assert_eq!(OperationResult::from_code(4), OperationResult::InvalidArgument);
}

#[test]
fn code_constants_have_the_service_values() {
    assert_eq!(CODE_SUCCESS, 0);
    assert_eq!(CODE_NO_MESSAGE, 1);
    assert_eq!(CODE_BUFFER_TOO_SMALL, 2);
    assert_eq!(CODE_SERVICE_UNAVAILABLE, 3);
    assert_eq!(CODE_INVALID_ARGUMENT, 4);
}

#[test]
fn unknown_codes_are_kept() {
    assert_eq!(OperationResult::from_code(5), OperationResult::Unrecognized(5));
    assert_eq!(OperationResult::from_code(1000), OperationResult::Unrecognized(1000));
    assert_eq!(OperationResult::from_code(u32::MAX), OperationResult::Unrecognized(u32::MAX));
    assert_eq!(OperationResult::from_code(0x8000_0000), OperationResult::Unrecognized(0x8000_0000));
}

#[test]
fn outcomes_encode_to_their_codes() {
    assert_eq!(OperationResult::Success.code(), 0);
    assert_eq!(OperationResult::NoMessage.code(), 1);
    assert_eq!(OperationResult::BufferTooSmall.code(), 2);
    assert_eq!(OperationResult::ServiceUnavailable.code(), 3);
    assert_eq!(OperationResult::InvalidArgument.code(), 4);
    assert_eq!(OperationResult::Unrecognized(77).code(), 77);
}

#[test]
fn decoding_then_encoding_gives_the_code_back() {
    let codes = [0u32, 1, 2, 3, 4, 5, 6, 255, 256, 65_536, 0x7FFF_FFFF, 0x8000_0000, u32::MAX];
    for code in codes {
        assert_eq!(OperationResult::from_code(code).code(), code);
    }
}

#[test]
fn distinct_codes_have_distinct_outcomes() {
    for a in 0..16u32 {
        for b in 0..16u32 {
            let same = OperationResult::from_code(a) == OperationResult::from_code(b);
            assert_eq!(same, a == b);
        }
    }
}

#[test]
fn only_success_is_success() {
    assert!(OperationResult::Success.is_success());
    assert!(!OperationResult::NoMessage.is_success());
    assert!(!OperationResult::BufferTooSmall.is_success());
    assert!(!OperationResult::ServiceUnavailable.is_success());
    assert!(!OperationResult::InvalidArgument.is_success());
    assert!(!OperationResult::Unrecognized(9).is_success());
}

#[test]
fn capacity_is_the_length_when_it_fits() {
    assert_eq!(buffer_capacity(0), 0);
    assert_eq!(buffer_capacity(4), 4);
    assert_eq!(buffer_capacity(65_536), 65_536);
    assert_eq!(buffer_capacity(u32::MAX as usize - 1), u32::MAX - 1);
    assert_eq!(buffer_capacity(u32::MAX as usize), u32::MAX);
}

#[test]
fn capacity_stops_at_the_largest_32_bit_number() {
    assert_eq!(buffer_capacity(0x1_0000_0000), u32::MAX);
    assert_eq!(buffer_capacity(0x1_0000_0004), u32::MAX);
    assert_eq!(buffer_capacity(0x3_FFFF_FFFF), u32::MAX);
    assert_eq!(buffer_capacity(usize::MAX), u32::MAX);
}

#[test]
fn payload_length_is_the_length_when_it_fits() {
    assert_eq!(payload_length(0), Some(0));
    assert_eq!(payload_length(4), Some(4));
    assert_eq!(payload_length(65_536), Some(65_536));
    assert_eq!(payload_length(u32::MAX as usize - 1), Some(u32::MAX - 1));
    assert_eq!(payload_length(u32::MAX as usize), Some(u32::MAX));
}

#[test]
fn payload_length_refuses_what_32_bits_cannot_say() {
    assert_eq!(payload_length(0x1_0000_0000), None);
    assert_eq!(payload_length(0x1_0000_0004), None);
    assert_eq!(payload_length(0x3_FFFF_FFFF), None);
    assert_eq!(payload_length(usize::MAX), None);
}
