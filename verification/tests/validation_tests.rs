//! Scenarios of the validation API: accepted IBANs, each error, the print
//! format, the numeric positions and the extracted identifiers.

use iban_validation_rs::{
    get_source_file, get_version, validate_iban_get_numeric, validate_iban_get_numeric_with,
    validate_iban_str, validate_iban_str_print, validate_iban_str_print_with,
    validate_iban_str_with, validate_iban_with_data, CountrySet, Iban, ValidationError,
    IBAN_MAX_LEN, IBAN_MIN_LEN,
};

const VALID: &[&str] = &[
    "GB82WEST12345698765432",
    "DE89370400440532013000",
    "FR1420041010050500013M02606",
    "IT60X0542811101000000123456",
    "ES9121000418450200051332",
    "NL91ABNA0417164300",
    "BE68539007547034",
    "CH9300762011623852957",
    "AT611904300234573201",
    "LU280019400644750000",
    "IE29AIBK93115212345678",
    "PT50000201231234567890154",
    "SE4550000000058398257466",
    "DK5000400440116243",
    "NO9386011117947",
    "GB29NWBK60161331926819",
    "AL47212110090000000235698741",
    "MT84MALT011000012345MTLCAST001S",
    "AD1200012030200359100100",
    "SM86U0322509800000000270100",
    "RU0204452560040702810412345678901",
    "DE44500105175407324931",
];

#[test]
fn well_known_ibans_are_valid() {
    for iban in VALID {
        assert_eq!(validate_iban_str(iban), Ok(true), "{iban}");
        assert!(Iban::new(iban).is_ok(), "{iban}");
    }
}

#[test]
fn each_error_has_an_input_that_gives_it() {
    let cases: &[(&str, ValidationError)] = &[
        ("DE8937040044053201300", ValidationError::InvalidSizeForCountry),
        ("DE893704004405320130001234", ValidationError::InvalidSizeForCountry),
        ("XX89370400440532013000", ValidationError::InvalidCountry),
        ("DE00370400440532013000", ValidationError::InvalidChecksum),
        ("DE01370400440532013000", ValidationError::InvalidChecksum),
        ("DE99370400440532013000", ValidationError::InvalidChecksum),
        ("DE96370400440532013000", ValidationError::ModuloIncorrect),
        ("D", ValidationError::MissingCountry),
        ("", ValidationError::MissingCountry),
        ("GBXXWEST12345698765432", ValidationError::StructureIncorrectForCountry),
        ("GB82WEST12345698765@32", ValidationError::StructureIncorrectForCountry),
        ("GB82WEST123456987654#2", ValidationError::StructureIncorrectForCountry),
        ("GB82west12345698765432", ValidationError::StructureIncorrectForCountry),
        ("gb82west12345698765432", ValidationError::InvalidCountry),
        ("G182WEST12345698765432", ValidationError::InvalidCountry),
        ("1B82WEST12345698765432", ValidationError::InvalidCountry),
        ("GB82WEST12345698765433", ValidationError::ModuloIncorrect),
        ("IT60X0542811101000000123457", ValidationError::ModuloIncorrect),
    ];
    for (iban, expected) in cases {
        assert_eq!(validate_iban_str(iban), Err(*expected), "{iban}");
        assert_eq!(Iban::new(iban).err(), Some(*expected), "{iban}");
    }
}

#[test]
fn non_ascii_input_is_rejected_without_panicking() {
    // the second character is two bytes long: byte 2 is inside it
    assert_eq!(validate_iban_str("DÉ44500105175407324931"), Err(ValidationError::MissingCountry));
    // right length for Germany, but a multi-byte character in the BBAN
    assert_eq!(
        validate_iban_str("DE4450010517540732493é"),
        Err(ValidationError::InvalidSizeForCountry)
    );
    assert_eq!(
        validate_iban_str("DE445001051754073249é"),
        Err(ValidationError::StructureIncorrectForCountry)
    );
    // a multi-byte character across byte 4
    assert_eq!(
        validate_iban_str("DE4é0010517540732493112"),
        Err(ValidationError::InvalidSizeForCountry)
    );
    assert_eq!(
        validate_iban_str("DE4é00105175407324931"),
        Err(ValidationError::StructureIncorrectForCountry)
    );
}

#[test]
fn identifiers_are_slices_of_the_iban() {
    let iban = Iban::new("DE89370400440532013000").unwrap();
    assert_eq!(iban.get_iban(), "DE89370400440532013000");
    assert_eq!(iban.iban_bank_id, Some("37040044"));
    assert_eq!(iban.iban_branch_id, None);

    let iban = Iban::new("AL47212110090000000235698741").unwrap();
    assert_eq!(iban.iban_bank_id, Some("212"));
    assert_eq!(iban.iban_branch_id, Some("11009"));

    let iban = Iban::new("GB82WEST12345698765432").unwrap();
    assert_eq!(iban.iban_bank_id, Some("WEST"));
    assert_eq!(iban.iban_branch_id, Some("123456"));

    let iban = Iban::new("IT60X0542811101000000123456").unwrap();
    assert_eq!(iban.iban_bank_id, Some("05428"));
    assert_eq!(iban.iban_branch_id, Some("11101"));
}

#[test]
fn numeric_positions_match_the_registry() {
    assert_eq!(
        validate_iban_get_numeric("RU0204452560040702810412345678901"),
        Ok((true, 4, 13, 13, 18))
    );
    assert_eq!(
        validate_iban_get_numeric("DE89370400440532013000"),
        Ok((true, 4, 12, 0, 0))
    );
    assert_eq!(
        validate_iban_get_numeric("DE96370400440532013000"),
        Err(ValidationError::ModuloIncorrect)
    );
    assert_eq!(
        validate_iban_get_numeric_with("MA36012345678901234567890123", CountrySet::WithNonRegistry),
        Ok((true, 4, 9, 9, 14))
    );
    let (fields, valid) = validate_iban_with_data("DE89370400440532013000").unwrap();
    assert!(valid);
    assert_eq!(fields.ctry_cd, *b"DE");
    assert_eq!(fields.bank_id_pos_s, Some(1));
    assert_eq!(fields.bank_id_pos_e, Some(8));
    assert_eq!(fields.iban_len(), 22);
}

#[test]
fn print_format_ignores_spaces() {
    assert_eq!(validate_iban_str_print("DE44 5001 0517 5407 3249 31"), Ok(true));
    assert_eq!(validate_iban_str_print("  GB82 WEST 1234 5698 7654 32  "), Ok(true));
    for iban in VALID {
        let spaced: String = iban
            .as_bytes()
            .chunks(4)
            .map(|c| std::str::from_utf8(c).unwrap())
            .collect::<Vec<_>>()
            .join(" ");
        assert_eq!(validate_iban_str_print(&spaced), validate_iban_str(iban), "{spaced}");
    }
}

#[test]
fn print_format_errors() {
    assert_eq!(validate_iban_str_print("DE4"), Err(ValidationError::InvalidSizeForCountry));
    assert_eq!(
        validate_iban_str_print("XX00 0000"),
        Err(ValidationError::InvalidChecksum)
    );
    assert_eq!(validate_iban_str_print("XX12 3456"), Err(ValidationError::InvalidCountry));
    // One character short: the check digits, moved behind the BBAN, land on a
    // position that must hold a digit.
    assert_eq!(
        validate_iban_str_print("DE44 5001 0517 5407 3249 3"),
        Err(ValidationError::StructureIncorrectForCountry)
    );
    // One character too many: the extra digit lands where the country code,
    // moved behind the BBAN, must hold a letter.
    assert_eq!(
        validate_iban_str_print("DE44 5001 0517 5407 3249 311"),
        Err(ValidationError::StructureIncorrectForCountry)
    );
    // Trailing characters beyond the IBAN that fit the rotated positions are
    // reported as a wrong length.
    assert_eq!(
        validate_iban_str_print("DE44 5001 0517 5407 3249 31DE44"),
        Err(ValidationError::InvalidSizeForCountry)
    );
    assert_eq!(
        validate_iban_str_print("DE44 5001 0517 5407 3249 3X1"),
        Err(ValidationError::StructureIncorrectForCountry)
    );
    assert_eq!(
        validate_iban_str_print("DE45 5001 0517 5407 3249 31"),
        Err(ValidationError::ModuloIncorrect)
    );
    // more than 65 bytes of input, even if only spaces are added
    let padded = format!("DE44500105175407324931{}", " ".repeat(50));
    assert_eq!(validate_iban_str_print(&padded), Err(ValidationError::InvalidSizeForCountry));
    let padded = format!("DE44500105175407324931{}", " ".repeat(43));
    assert_eq!(validate_iban_str_print(&padded), Ok(true));
    assert_eq!(
        validate_iban_str_print_with("AO49 0123 4567 8901 2345 6789 0", CountrySet::WithNonRegistry),
        Ok(true)
    );
}

#[test]
fn non_registry_only_adds_acceptance() {
    for iban in VALID {
        assert_eq!(
            validate_iban_str_with(iban, CountrySet::Registry),
            validate_iban_str_with(iban, CountrySet::WithNonRegistry)
        );
    }
    assert_eq!(
        validate_iban_str_with("AO49012345678901234567890", CountrySet::Registry),
        Err(ValidationError::InvalidCountry)
    );
}

#[test]
fn error_messages() {
    assert_eq!(
        ValidationError::TooShort(3).to_string(),
        "The input Iban is too short to be an IBAN 3 (minimum length is 4)"
    );
    assert_eq!(
        ValidationError::ModuloIncorrect.to_string(),
        "The calculated mod97 for the iban indicates an incorrect Iban"
    );
    assert_eq!(
        ValidationError::InvalidChecksum.to_string(),
        "The checksum is invalid it can not be 00, 01 or 99"
    );
    assert_eq!(
        ValidationError::InvalidSizeForCountry.to_string(),
        "The length of the input Iban does match the length for that country"
    );
}

#[test]
fn country_set_conversions() {
    assert_eq!(CountrySet::default(), CountrySet::Registry);
    assert_eq!(CountrySet::from(true), CountrySet::WithNonRegistry);
    let set: CountrySet = false.into();
    assert_eq!(set, CountrySet::Registry);
}

#[test]
fn version_and_source() {
    assert!(get_source_file().contains("iban_registry_v"));
    assert!(!get_version().is_empty());
    assert_eq!(IBAN_MIN_LEN, 15);
    assert_eq!(IBAN_MAX_LEN, 33);
}
