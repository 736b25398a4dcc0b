//! The decisions behind the C interface: status codes, numeric positions,
//! spans of a view and the message of each status.

use iban_validation_rs::c_api::{
    error_code_message, length_in_range, map_validation_error, validate_bytes,
    validate_c_string_bytes, validate_numeric_bytes, view_spans, IbanErrorCode,
    IbanValidationResult, IbanViewSpans, StrSpan,
};
use iban_validation_rs::c_api::{read_exact_length, read_optional_length, InputLength};
use iban_validation_rs::ValidationError;

#[test]
fn status_codes_have_their_numbers() {
    let expected = [
        (IbanErrorCode::Valid, 1),
        (IbanErrorCode::Invalid, 0),
        (IbanErrorCode::TooShort, -1),
        (IbanErrorCode::MissingCountry, -2),
        (IbanErrorCode::InvalidCountry, -3),
        (IbanErrorCode::StructureIncorrectForCountry, -4),
        (IbanErrorCode::InvalidSize, -5),
        (IbanErrorCode::ModuloFailed, -6),
        (IbanErrorCode::InvalidChecksum, -7),
    ];
    for (code, number) in expected {
        assert_eq!(code.code(), number, "{code:?}");
    }
}

#[test]
fn validation_errors_map_to_statuses() {
    assert_eq!(map_validation_error(ValidationError::TooShort(3)), IbanErrorCode::TooShort);
    assert_eq!(map_validation_error(ValidationError::MissingCountry), IbanErrorCode::MissingCountry);
    assert_eq!(map_validation_error(ValidationError::InvalidCountry), IbanErrorCode::InvalidCountry);
    assert_eq!(
        map_validation_error(ValidationError::StructureIncorrectForCountry),
        IbanErrorCode::StructureIncorrectForCountry
    );
    assert_eq!(
        map_validation_error(ValidationError::InvalidSizeForCountry),
        IbanErrorCode::InvalidSize
    );
    assert_eq!(map_validation_error(ValidationError::ModuloIncorrect), IbanErrorCode::ModuloFailed);
    assert_eq!(
        map_validation_error(ValidationError::InvalidChecksum),
        IbanErrorCode::InvalidChecksum
    );
}

#[test]
fn valid_ibans_give_the_valid_status() {
    for iban in [
        "DE89370400440532013000",
        "GB29NWBK60161331926819",
        "FR1420041010050500013M02606",
        "CH9300762011623852957",
        "NL91ABNA0417164300",
    ] {
        assert_eq!(validate_bytes(iban.as_bytes()), IbanErrorCode::Valid, "{iban}");
        assert_eq!(validate_c_string_bytes(iban.as_bytes()), IbanErrorCode::Valid, "{iban}");
        assert_eq!(validate_numeric_bytes(iban.as_bytes()).0, IbanErrorCode::Valid, "{iban}");
    }
}

#[test]
fn invalid_ibans_give_their_status() {
    let cases = [
        ("DE8937040044053201300", IbanErrorCode::InvalidSize),
        ("XX89370400440532013000", IbanErrorCode::InvalidCountry),
        ("DE00370400440532013000", IbanErrorCode::InvalidChecksum),
        ("DE96370400440532013000", IbanErrorCode::ModuloFailed),
        ("D", IbanErrorCode::MissingCountry),
        ("", IbanErrorCode::MissingCountry),
        ("DE893704004405320130001234", IbanErrorCode::InvalidSize),
        ("GBXXWEST12345698765432", IbanErrorCode::StructureIncorrectForCountry),
        ("GB82WEST12345698765@32", IbanErrorCode::StructureIncorrectForCountry),
        ("gb82west12345698765432", IbanErrorCode::InvalidCountry),
    ];
    for (iban, status) in cases {
        assert_eq!(validate_bytes(iban.as_bytes()), status, "{iban}");
        assert_eq!(validate_c_string_bytes(iban.as_bytes()), status, "{iban}");
        assert_eq!(validate_numeric_bytes(iban.as_bytes()), (status, None), "{iban}");
    }
}

#[test]
fn bytes_that_are_not_utf8_have_their_own_status() {
    let bytes = [0x44, 0x45, 0xff, 0x39];
    assert_eq!(validate_bytes(&bytes), IbanErrorCode::Invalid);
    assert_eq!(validate_c_string_bytes(&bytes), IbanErrorCode::StructureIncorrectForCountry);
    assert_eq!(validate_numeric_bytes(&bytes), (IbanErrorCode::Invalid, None));
    assert_eq!(view_spans(&[0xffu8; 20]), (IbanErrorCode::Invalid, None));
}

#[test]
fn numeric_result_gives_the_identifier_positions() {
    // Germany: bank code at BBAN positions 1 to 8, no branch code.
    assert_eq!(
        validate_numeric_bytes(b"DE89370400440532013000"),
        (
            IbanErrorCode::Valid,
            Some(IbanValidationResult { is_valid: true, bank_s: 4, bank_e: 12, branch_s: 0, branch_e: 0 })
        )
    );
    // United Kingdom: bank code then sort code.
    let (status, result) = validate_numeric_bytes(b"GB82WEST12345698765432");
    assert_eq!(status, IbanErrorCode::Valid);
    let result = result.unwrap();
    assert_eq!(&"GB82WEST12345698765432"[result.bank_s as usize..result.bank_e as usize], "WEST");
    assert_eq!(&"GB82WEST12345698765432"[result.branch_s as usize..result.branch_e as usize], "123456");
    assert_eq!(
        IbanValidationResult::cleared(),
        IbanValidationResult { is_valid: false, bank_s: 0, bank_e: 0, branch_s: 0, branch_e: 0 }
    );
}

#[test]
fn explicit_lengths_are_checked_against_the_iban_bounds() {
    for len in [0usize, 10, 14, 34, 50, 255] {
        assert!(!length_in_range(len), "{len}");
    }
    for len in [15usize, 20, 26, 33] {
        assert!(length_in_range(len), "{len}");
    }
}

#[test]
fn view_spans_locate_the_identifiers() {
    assert_eq!(
        view_spans(b"DE89370400440532013000"),
        (
            IbanErrorCode::Valid,
            Some(IbanViewSpans {
                iban_len: 22,
                bank_id: Some(StrSpan { offset: 4, len: 8 }),
                branch_id: None,
            })
        )
    );
    assert_eq!(
        view_spans(b"GB82WEST12345698765432"),
        (
            IbanErrorCode::Valid,
            Some(IbanViewSpans {
                iban_len: 22,
                bank_id: Some(StrSpan { offset: 4, len: 4 }),
                branch_id: Some(StrSpan { offset: 8, len: 6 }),
            })
        )
    );
    // Too short or too long to be an IBAN at all.
    assert_eq!(view_spans(b"DE89"), (IbanErrorCode::Invalid, None));
    assert_eq!(view_spans(&[b'1'; 34]), (IbanErrorCode::Invalid, None));
    assert_eq!(view_spans(b"DE96370400440532013000"), (IbanErrorCode::ModuloFailed, None));
}

#[test]
fn each_status_has_its_message() {
    let cases = [
        (1, "Valid IBAN"),
        (0, "Invalid IBAN"),
        (-1, "IBAN is too short"),
        (-2, "IBAN is missing country code"),
        (-3, "IBAN has invalid country code"),
        (-4, "IBAN structure is incorrect for the country"),
        (-5, "IBAN length is invalid for the country"),
        (-6, "IBAN checksum (mod-97) is incorrect"),
        (-7, "IBAN checksum is invalid (00, 01, or 99 not allowed)"),
        (99, "Unknown error code"),
    ];
    for (code, message) in cases {
        assert_eq!(error_code_message(code), format!("{message}\0"), "{code}");
    }
}

#[test]
fn an_iban_is_built_from_valid_bytes_only() {
    let iban = iban_validation_rs::c_api::iban_from_bytes(b"DE89370400440532013000").unwrap();
    assert_eq!(iban.get_iban(), "DE89370400440532013000");
    assert_eq!(iban.iban_bank_id, Some("37040044"));
    assert_eq!(iban.iban_branch_id, None);
    assert!(iban_validation_rs::c_api::iban_from_bytes(b"INVALID").is_none());
    assert!(iban_validation_rs::c_api::iban_from_bytes(&[0x44, 0x45, 0xc3]).is_none());
}

#[test]
fn entry_points_decide_how_much_to_read() {
    assert_eq!(read_optional_length(true, 0), Err(IbanErrorCode::MissingCountry));
    assert_eq!(read_optional_length(true, 22), Err(IbanErrorCode::MissingCountry));
    assert_eq!(read_optional_length(false, 0), Ok(InputLength::UntilNul));
    assert_eq!(read_optional_length(false, 22), Ok(InputLength::Exact(22)));
    assert_eq!(read_optional_length(false, 10), Err(IbanErrorCode::InvalidSize));
    assert_eq!(read_optional_length(false, 34), Err(IbanErrorCode::InvalidSize));
    // An exact length is checked before the pointer.
    assert_eq!(read_exact_length(true, 0), Err(IbanErrorCode::InvalidSize));
    assert_eq!(read_exact_length(true, 22), Err(IbanErrorCode::MissingCountry));
    assert_eq!(read_exact_length(false, 15), Ok(15));
    assert_eq!(read_exact_length(false, 255), Err(IbanErrorCode::InvalidSize));
}
