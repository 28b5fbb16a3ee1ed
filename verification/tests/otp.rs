use t_hotp::create_otp;
use t_hotp::create_totp;
use t_hotp::create_totp_from_millis;
use t_hotp::create_totp_from_secs;
use t_hotp::offset;
use t_hotp::render::format_code;
use t_hotp::truncate_hash;
use t_hotp::DecodeKind;
use t_hotp::OtpError;

const RFC_SECRET: &str = "GEZDGNBVGY3TQOJQGEZDGNBVGY3TQOJQ";

#[test]
fn when_truncate_hash_get_called_with_offset_should_return_hash_from_offset_to_offset_plus_4() {
    let hash = [0, 0, 0, 1, 2, 3, 4, 0, 0, 0, 0, 0, 0, 0, 0, 0, 0, 0, 0, 0];
    let offset = 3;
    assert_eq!(16909060, truncate_hash(&hash, offset));
}

#[test]
fn when_truncate_hash_get_called_with_upper_bound_offset_should_return_hash_from_offset_to_offset_plus_4(
) {
    let hash = [
        0, 0, 0, 0, 0, 0, 0, 0, 0, 0, 0, 0, 0, 0, 0, 13, 255, 30, 10, 0,
    ];
    let offset = 15;
    assert_eq!(234823178, truncate_hash(&hash, offset));
}

#[test]
fn when_truncate_hash_get_called_with_lower_bound_offset_should_return_hash_from_offset_to_offset_plus_4(
) {
    let hash = [32, 16, 8, 4, 0, 0, 0, 0, 0, 0, 0, 0, 0, 0, 0, 0, 0, 0, 0, 0];
    let offset = 0;
    assert_eq!(537921540, truncate_hash(&hash, offset));
}

#[test]
fn when_offset_get_called_with_small_number_in_last_hash_entry_should_return_whole_number() {
    let hash = [0, 0, 0, 0, 0, 0, 0, 0, 0, 0, 0, 0, 0, 0, 0, 0, 0, 0, 0, 10];

    assert_eq!(10, offset(&hash));
}

#[test]
fn when_offset_get_called_with_large_number_in_last_hash_entry_should_return_truncated_number() {
    let hash = [0, 0, 0, 0, 0, 0, 0, 0, 0, 0, 0, 0, 0, 0, 0, 0, 0, 0, 0, 17];

    assert_eq!(1, offset(&hash));
}

#[test]
fn rfc_6238_tests() {
    assert_eq!(create_otp(RFC_SECRET, 59).unwrap(), 83773);
    assert_eq!(create_otp(RFC_SECRET, 1111111109).unwrap(), 510233);
    assert_eq!(create_otp(RFC_SECRET, 1111111111).unwrap(), 73950);
    assert_eq!(create_otp(RFC_SECRET, 1234567890).unwrap(), 965462);
    assert_eq!(create_otp(RFC_SECRET, 2000000000).unwrap(), 54266);
    assert_eq!(create_otp(RFC_SECRET, 20000000000).unwrap(), 468884);
}

#[test]
fn create_otp_is_deterministic() {
    for counter in [0u64, 1, 59, 1234567890, u64::MAX] {
        assert_eq!(
            create_otp(RFC_SECRET, counter).unwrap(),
            create_otp(RFC_SECRET, counter).unwrap()
        );
    }
}

#[test]
fn create_otp_stays_in_six_digit_range() {
    for counter in [0u64, 1, 2, 30, 59, 1000, 123456789, u64::MAX] {
        let code = create_otp(RFC_SECRET, counter).unwrap();
        assert!(code <= 999_999);
    }
}

#[test]
fn malformed_secret_gives_length_error() {
    let err = create_otp("===", 0).unwrap_err();
    match err {
        OtpError::PrivateKeyError(e) => {
            assert_eq!(e.kind, DecodeKind::Length);
            assert_eq!(e.position, 2);
        }
        other => panic!("expected a decode error, got {:?}", other),
    }
    let message = err.as_str();
    assert!(!message.is_empty());
    assert_eq!(message, "invalid length at 2");
}

#[test]
fn secret_outside_alphabet_gives_symbol_error() {
    let err = create_otp("11", 0).unwrap_err();
    match err {
        OtpError::PrivateKeyError(e) => {
            assert_eq!(e.kind, DecodeKind::Symbol);
            assert_eq!(e.position, 0);
        }
        other => panic!("expected a decode error, got {:?}", other),
    }
    assert_eq!(err.as_str(), "invalid symbol at 0");
}

#[test]
fn empty_secret_is_valid_base32_and_yields_a_code() {
    // An empty string is well-formed base32 (it decodes to an empty key,
    // which HMAC accepts), so the generator owes it a code.
    let code = create_otp("", 0).unwrap();
    assert!(code <= 999_999);
}

#[test]
fn unix_epoch_error_has_a_description() {
    let message = OtpError::UnixEpochError.as_str();
    assert!(!message.is_empty());
    assert_eq!(message, "system time is earlier than the Unix epoch");
}

#[test]
fn format_code_pads_to_six_characters() {
    assert_eq!(format_code(0), "000000");
    assert_eq!(format_code(7), "000007");
    assert_eq!(format_code(83773), "083773");
    assert_eq!(format_code(999_999), "999999");
    for code in [0u32, 1, 9, 10, 99_999, 100_000, 999_999] {
        assert_eq!(format_code(code).chars().count(), 6);
    }
}

#[test]
fn create_totp_from_millis_matches_counter_vectors() {
    // 59 seconds after the epoch lies in the second 30-second step.
    assert_eq!(create_totp_from_millis(RFC_SECRET, 59_000).unwrap(), create_otp(RFC_SECRET, 1).unwrap());
    // A supplied instant whose step count is 59 yields the counter-59 vector.
    assert_eq!(create_totp_from_millis(RFC_SECRET, 59 * 30_000).unwrap(), 83773);
    assert_eq!(create_totp_from_millis(RFC_SECRET, 59 * 30_000 + 29_999).unwrap(), 83773);
    assert_eq!(
        create_totp_from_millis(RFC_SECRET, 60 * 30_000).unwrap(),
        create_otp(RFC_SECRET, 60).unwrap()
    );
}

#[test]
fn create_totp_from_secs_divides_into_30_second_steps() {
    // 59 seconds after the epoch lies in the second 30-second step.
    assert_eq!(create_totp_from_secs(RFC_SECRET, 59).unwrap(), create_otp(RFC_SECRET, 1).unwrap());
    // An instant whose step count is 59 yields the counter-59 vector.
    assert_eq!(create_totp_from_secs(RFC_SECRET, 59 * 30).unwrap(), 83773);
    assert_eq!(create_totp_from_secs(RFC_SECRET, 59 * 30 + 29).unwrap(), 83773);
    assert_eq!(
        create_totp_from_secs(RFC_SECRET, 60 * 30).unwrap(),
        create_otp(RFC_SECRET, 60).unwrap()
    );
}

#[test]
fn retrying_a_bad_secret_fails_identically() {
    // The error, fault position and kind included, is a function of the
    // secret alone.
    assert_eq!(create_otp("===", 0).unwrap_err(), create_otp("===", 0).unwrap_err());
    assert_eq!(create_otp("===", 0).unwrap_err(), create_otp("===", 12345).unwrap_err());
    assert_eq!(
        create_totp_from_secs("===", 0).unwrap_err(),
        create_totp_from_millis("===", 99_000).unwrap_err()
    );
}

#[test]
fn create_totp_from_millis_rejects_bad_secret() {
    assert!(matches!(
        create_totp_from_millis("===", 0),
        Err(OtpError::PrivateKeyError(_))
    ));
}

#[test]
fn create_totp_returns_code_in_range() {
    let code = create_totp(RFC_SECRET).unwrap();
    assert!(code <= 999_999);
}
