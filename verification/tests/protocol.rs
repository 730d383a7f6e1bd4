//! Command encoding, status-word classification, and response
//! interpretation.

use mifare_classic::apdu;
use mifare_classic::apdu::KeyType;
use mifare_classic::error::ErrorKind;
use mifare_classic::status::classify;
use mifare_classic::status::interpret_response;
use mifare_classic::status::Operation;
use mifare_classic::status::StatusOutcome;

#[test]
fn load_key_rejects_short_key_without_encoding() {
    let r = apdu::load_key(&[0xFF, 0xFF, 0xFF, 0xFF, 0xFF]);
    let e = r.unwrap_err();
    assert_eq!(e.kind, ErrorKind::Validation);
    assert_eq!(e.message, "Key must be exactly 6 bytes");
    assert!(e.status.is_none());
}

#[test]
fn load_key_rejects_long_key_without_encoding() {
    let r = apdu::load_key(&[0u8; 7]);
    let e = r.unwrap_err();
    assert_eq!(e.kind, ErrorKind::Validation);
    assert_eq!(e.message, "Key must be exactly 6 bytes");
    assert!(e.status.is_none());
}

#[test]
fn load_key_rejects_empty_key_without_encoding() {
    let r = apdu::load_key(&[]);
    assert_eq!(r.unwrap_err().kind, ErrorKind::Validation);
}

#[test]
fn load_key_encodes_exact_bytes() {
    let cmd = apdu::load_key(&[0xA0, 0xA1, 0xA2, 0xA3, 0xA4, 0xA5]).unwrap();
    assert_eq!(
        cmd,
        vec![0xFF, 0x82, 0x00, 0x00, 0x06, 0xA0, 0xA1, 0xA2, 0xA3, 0xA4, 0xA5]
    );
}

#[test]
fn write_block_rejects_short_data_without_encoding() {
    let r = apdu::write_block(4, &[0u8; 15]);
    let e = r.unwrap_err();
    assert_eq!(e.kind, ErrorKind::Validation);
    assert_eq!(e.message, "Data must be exactly 16 bytes");
    assert!(e.status.is_none());
}

#[test]
fn write_block_rejects_long_data_without_encoding() {
    let r = apdu::write_block(4, &[0u8; 17]);
    assert_eq!(r.unwrap_err().kind, ErrorKind::Validation);
}

#[test]
fn write_block_encodes_exact_bytes() {
    let data: Vec<u8> = (0..16).collect();
    let cmd = apdu::write_block(4, &data).unwrap();
    let mut expected = vec![0xFF, 0xD6, 0x00, 0x04, 0x10];
    expected.extend_from_slice(&data);
    assert_eq!(cmd, expected);
}

#[test]
fn get_uid_command_bytes() {
    assert_eq!(apdu::get_uid(), vec![0xFF, 0xCA, 0x00, 0x00, 0x00]);
}

#[test]
fn authenticate_command_maps_key_types() {
    assert_eq!(
        apdu::authenticate(8, KeyType::KeyA),
        vec![0xFF, 0x86, 0x00, 0x00, 0x05, 0x01, 0x00, 0x08, 0x60, 0x00]
    );
    assert_eq!(
        apdu::authenticate(8, KeyType::KeyB),
        vec![0xFF, 0x86, 0x00, 0x00, 0x05, 0x01, 0x00, 0x08, 0x61, 0x00]
    );
    assert_eq!(KeyType::KeyA.command_byte(), 0x60);
    assert_eq!(KeyType::KeyB.command_byte(), 0x61);
}

#[test]
fn read_block_command_bytes() {
    assert_eq!(apdu::read_block(0x3F), vec![0xFF, 0xB0, 0x00, 0x3F, 0x10]);
}

#[test]
fn increment_command_little_endian_value() {
    assert_eq!(
        apdu::increment_value(4, 10),
        vec![0xFF, 0xD7, 0x00, 0x04, 0x05, 0x01, 0x0A, 0x00, 0x00, 0x00]
    );
    assert_eq!(
        apdu::increment_value(4, -1),
        vec![0xFF, 0xD7, 0x00, 0x04, 0x05, 0x01, 0xFF, 0xFF, 0xFF, 0xFF]
    );
}

#[test]
fn decrement_command_little_endian_value() {
    assert_eq!(
        apdu::decrement_value(5, 5),
        vec![0xFF, 0xD7, 0x00, 0x05, 0x05, 0x02, 0x05, 0x00, 0x00, 0x00]
    );
    assert_eq!(
        apdu::decrement_value(5, 0x01020304),
        vec![0xFF, 0xD7, 0x00, 0x05, 0x05, 0x02, 0x04, 0x03, 0x02, 0x01]
    );
}

#[test]
fn status_success_strips_status_word() {
    match classify(&[0xDE, 0xAD, 0xBE, 0xEF, 0x90, 0x00]) {
        StatusOutcome::Success { payload } => assert_eq!(payload, vec![0xDE, 0xAD, 0xBE, 0xEF]),
        _ => panic!("expected success"),
    }
}

#[test]
fn status_success_with_empty_payload() {
    match classify(&[0x90, 0x00]) {
        StatusOutcome::Success { payload } => assert!(payload.is_empty()),
        _ => panic!("expected success"),
    }
}

#[test]
fn status_failure_carries_bytes_verbatim() {
    match classify(&[0x63, 0x00]) {
        StatusOutcome::Failure { status1, status2 } => {
            assert_eq!(status1, 0x63);
            assert_eq!(status2, 0x00);
        }
        _ => panic!("expected failure"),
    }
    match classify(&[0x01, 0x02, 0x6A, 0x81]) {
        StatusOutcome::Failure { status1, status2 } => {
            assert_eq!(status1, 0x6A);
            assert_eq!(status2, 0x81);
        }
        _ => panic!("expected failure"),
    }
}

#[test]
fn status_nearly_successful_words_are_failures() {
    assert!(matches!(
        classify(&[0x90, 0x01]),
        StatusOutcome::Failure { status1: 0x90, status2: 0x01 }
    ));
    assert!(matches!(
        classify(&[0x00, 0x90]),
        StatusOutcome::Failure { status1: 0x00, status2: 0x90 }
    ));
}

#[test]
fn short_responses_are_malformed() {
    assert!(matches!(classify(&[]), StatusOutcome::Malformed));
    assert!(matches!(classify(&[0x90]), StatusOutcome::Malformed));
}

#[test]
fn interpret_malformed_for_every_operation() {
    let ops = [
        Operation::ReadUid,
        Operation::LoadKey,
        Operation::Authenticate(1),
        Operation::ReadBlock(2),
        Operation::WriteBlock(3),
        Operation::IncrementValue(4),
        Operation::DecrementValue(5),
        Operation::DirectCommand,
    ];
    for op in ops {
        for resp in [&[][..], &[0x90][..]] {
            let e = interpret_response(op, resp).unwrap_err();
            assert_eq!(e.kind, ErrorKind::MalformedResponse);
            assert_eq!(e.message, "Invalid response length");
            assert!(e.status.is_none());
        }
    }
}

#[test]
fn interpret_success_returns_payload() {
    let r = interpret_response(Operation::ReadUid, &[0x04, 0xA2, 0x2C, 0x1B, 0x90, 0x00]);
    assert_eq!(r.unwrap(), vec![0x04, 0xA2, 0x2C, 0x1B]);
}

#[test]
fn interpret_failure_label_names_operation_and_block() {
    let e = interpret_response(Operation::Authenticate(7), &[0x63, 0x00]).unwrap_err();
    assert_eq!(e.kind, ErrorKind::Protocol);
    assert_eq!(e.message, "Authentication failed for block 7");
    assert_eq!(e.status, Some((0x63, 0x00)));

    let e = interpret_response(Operation::ReadBlock(255), &[0x01, 0x6A, 0x81]).unwrap_err();
    assert_eq!(e.message, "Failed to read block 255");
    assert_eq!(e.status, Some((0x6A, 0x81)));

    let e = interpret_response(Operation::WriteBlock(0), &[0x65, 0x81]).unwrap_err();
    assert_eq!(e.message, "Failed to write to block 0");

    let e = interpret_response(Operation::IncrementValue(10), &[0x65, 0x81]).unwrap_err();
    assert_eq!(e.message, "Failed to increment value block 10");

    let e = interpret_response(Operation::DecrementValue(99), &[0x65, 0x81]).unwrap_err();
    assert_eq!(e.message, "Failed to decrement value block 99");

    let e = interpret_response(Operation::LoadKey, &[0x63, 0x00]).unwrap_err();
    assert_eq!(e.message, "Failed to load key");

    let e = interpret_response(Operation::ReadUid, &[0x63, 0x00]).unwrap_err();
    assert_eq!(e.message, "Failed to read UID");

    let e = interpret_response(Operation::DirectCommand, &[0x63, 0x00]).unwrap_err();
    assert_eq!(e.message, "Direct command failed");
}

#[test]
fn error_constructors_keep_fields() {
    let e = mifare_classic::MifareError::new(ErrorKind::Transport, "no card");
    assert_eq!(e.kind, ErrorKind::Transport);
    assert_eq!(e.message, "no card");
    assert!(e.status.is_none());

    let e = mifare_classic::MifareError::with_status("Failed to load key", 0x69, 0x82);
    assert_eq!(e.kind, ErrorKind::Protocol);
    assert_eq!(e.message, "Failed to load key");
    assert_eq!(e.status, Some((0x69, 0x82)));
}

#[test]
fn error_display_line_includes_status_word() {
    let e = mifare_classic::MifareError::with_status("Failed to load key", 0x69, 0x82);
    assert_eq!(e.display_string(), "Failed to load key: Status 69 82");
    let e = mifare_classic::MifareError::with_status("Direct command failed", 0x0A, 0xF0);
    assert_eq!(e.display_string(), "Direct command failed: Status 0A F0");
    let e = mifare_classic::MifareError::new(ErrorKind::Validation, "Key must be exactly 6 bytes");
    assert_eq!(e.display_string(), "Key must be exactly 6 bytes");
}
