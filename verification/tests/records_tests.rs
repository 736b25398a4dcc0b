//! Owned records of validated IBANs and the per-value functions of the
//! data-frame plugin.

use iban_validation_rs::records::{
    country_set_for, country_status_str, non_registry_country_codes, parse_iban_record,
    process_iban_str_str, validation_error_text,
};
use iban_validation_rs::{CountrySet, ValidationError, NON_REGISTRY_COUNTRIES};

#[test]
fn a_record_holds_owned_parts() {
    let record = parse_iban_record("GB82WEST12345698765432", CountrySet::Registry).unwrap();
    assert_eq!(record.iban, "GB82WEST12345698765432");
    assert_eq!(record.bank_id.as_deref(), Some("WEST"));
    assert_eq!(record.branch_id.as_deref(), Some("123456"));
    assert!(!record.is_non_registry);

    let record = parse_iban_record("DE89370400440532013000", CountrySet::Registry).unwrap();
    assert_eq!(record.bank_id.as_deref(), Some("37040044"));
    assert_eq!(record.branch_id, None);
}

#[test]
fn a_record_knows_the_countries_outside_the_registry() {
    assert!(matches!(
        parse_iban_record("AO49012345678901234567890", CountrySet::Registry),
        Err(ValidationError::InvalidCountry)
    ));
    let record = parse_iban_record("AO49012345678901234567890", CountrySet::WithNonRegistry).unwrap();
    assert!(record.is_non_registry);
    assert_eq!(record.bank_id, None);
    let record = parse_iban_record("MA36012345678901234567890123", CountrySet::WithNonRegistry).unwrap();
    assert!(record.is_non_registry);
    assert_eq!(record.bank_id.as_deref(), Some("01234"));
    assert_eq!(record.branch_id.as_deref(), Some("56789"));
}

#[test]
fn refused_records_give_the_reason() {
    assert!(matches!(
        parse_iban_record("DE96370400440532013000", CountrySet::Registry),
        Err(ValidationError::ModuloIncorrect)
    ));
    assert_eq!(
        validation_error_text(ValidationError::ModuloIncorrect),
        "Validation error: The calculated mod97 for the iban indicates an incorrect Iban"
    );
}

#[test]
fn an_absent_flag_means_the_registry() {
    assert_eq!(country_set_for(None), CountrySet::Registry);
    assert_eq!(country_set_for(Some(false)), CountrySet::Registry);
    assert_eq!(country_set_for(Some(true)), CountrySet::WithNonRegistry);
}

#[test]
fn the_codes_outside_the_registry_are_listed_as_strings() {
    let codes = non_registry_country_codes();
    assert_eq!(codes.len(), NON_REGISTRY_COUNTRIES.len());
    for (code, bytes) in codes.iter().zip(NON_REGISTRY_COUNTRIES.iter()) {
        assert_eq!(code.as_bytes(), bytes);
    }
    assert_eq!(codes[0], "AO");
}

#[test]
fn the_plugin_record_is_comma_separated() {
    let mut out = String::from("left over");
    process_iban_str_str("GB82WEST12345698765432", CountrySet::Registry, &mut out);
    assert_eq!(out, "GB82WEST12345698765432,WEST,123456");
    process_iban_str_str("DE89370400440532013000", CountrySet::Registry, &mut out);
    assert_eq!(out, "DE89370400440532013000,37040044,");
    process_iban_str_str("AO49012345678901234567890", CountrySet::WithNonRegistry, &mut out);
    assert_eq!(out, "AO49012345678901234567890,,");
    process_iban_str_str("DE96370400440532013000", CountrySet::Registry, &mut out);
    assert_eq!(out, "");
}

#[test]
fn the_plugin_classifies_each_value() {
    let mut out = String::new();
    country_status_str("DE89370400440532013000", &mut out);
    assert_eq!(out, "registry");
    country_status_str("AO49012345678901234567890", &mut out);
    assert_eq!(out, "non_registry");
    country_status_str("AO48012345678901234567890", &mut out);
    assert_eq!(out, "invalid");
    country_status_str("", &mut out);
    assert_eq!(out, "invalid");
}
