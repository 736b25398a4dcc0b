//! Character classes, the mod-97 table and the registry data.

use iban_validation_rs::letters::{
    simple_contains_a, simple_contains_c, simple_contains_n, ValidationLetterError,
};
use iban_validation_rs::mod97::generate_mff_array;
use iban_validation_rs::{get_iban_fields, get_iban_fields_with, is_non_registry_country};
use iban_validation_rs::{CountrySet, IbanFields};

#[test]
fn simple_contains_n_boundaries() {
    assert_eq!(simple_contains_n(b'0'), Ok(0));
    assert_eq!(simple_contains_n(b'9'), Ok(9));
    assert_eq!(
        simple_contains_n(b'/'),
        Err(ValidationLetterError::NotPartOfRequiredSet)
    );
    assert_eq!(
        simple_contains_n(b':'),
        Err(ValidationLetterError::NotPartOfRequiredSet)
    );
    assert_eq!(
        simple_contains_n(b'A'),
        Err(ValidationLetterError::NotPartOfRequiredSet)
    );
    assert_eq!(
        simple_contains_n(0xFF),
        Err(ValidationLetterError::NotPartOfRequiredSet)
    );
}

#[test]
fn simple_contains_a_boundaries() {
    assert_eq!(simple_contains_a(b'A'), Ok(10));
    assert_eq!(simple_contains_a(b'Z'), Ok(35));
    assert_eq!(
        simple_contains_a(b'@'),
        Err(ValidationLetterError::NotPartOfRequiredSet)
    );
    assert_eq!(
        simple_contains_a(b'['),
        Err(ValidationLetterError::NotPartOfRequiredSet)
    );
    // uppercase-only: lowercase letters must be rejected, unlike simple_contains_c
    assert_eq!(
        simple_contains_a(b'a'),
        Err(ValidationLetterError::NotPartOfRequiredSet)
    );
    assert_eq!(
        simple_contains_a(b'0'),
        Err(ValidationLetterError::NotPartOfRequiredSet)
    );
}

#[test]
fn simple_contains_c_boundaries_and_case_fold() {
    assert_eq!(simple_contains_c(b'0'), Ok(0));
    assert_eq!(simple_contains_c(b'9'), Ok(9));
    assert_eq!(simple_contains_c(b'A'), Ok(10));
    assert_eq!(simple_contains_c(b'Z'), Ok(35));
    // lowercase letters fold to the same value as their uppercase counterpart
    assert_eq!(simple_contains_c(b'a'), simple_contains_c(b'A'));
    assert_eq!(simple_contains_c(b'z'), simple_contains_c(b'Z'));
    assert_eq!(
        simple_contains_c(b'@'),
        Err(ValidationLetterError::NotPartOfRequiredSet)
    );
    assert_eq!(
        simple_contains_c(b' '),
        Err(ValidationLetterError::NotPartOfRequiredSet)
    );
}

/// Independently recomputes the mod-97 folding step (ISO 7064 MOD 97-10) for every
/// (accumulator, digit) pair and compares it against the generated table.
#[test]
fn mff_array_matches_naive_mod97_fold() {
    let table = generate_mff_array();
    for acc in 0u32..97 {
        for digit in 0u32..36 {
            let multiplier = if digit < 10 { 10 } else { 100 };
            let expected = (acc * multiplier + digit) % 97;
            assert_eq!(
                table[acc as usize][digit as usize] as u32, expected,
                "mismatch at acc={acc}, digit={digit}"
            );
        }
    }
}

/// Every definition's bank/branch positions must be internally consistent and
/// within bounds.
fn assert_definitions_consistent(defs: &[IbanFields]) {
    for fields in defs {
        let len = fields.iban_len();
        assert!(len > 0, "{:?} has no validators", fields.ctry_cd);

        if let (Some(s), Some(e)) = (fields.bank_id_pos_s, fields.bank_id_pos_e) {
            assert!(s <= e, "{:?} bank_id start after end", fields.ctry_cd);
            assert!(e < len, "{:?} bank_id end out of bounds", fields.ctry_cd);
        }

        if let (Some(s), Some(e)) = (fields.branch_id_pos_s, fields.branch_id_pos_e) {
            assert!(s <= e, "{:?} branch_id start after end", fields.ctry_cd);
            assert!(e < len, "{:?} branch_id end out of bounds", fields.ctry_cd);
        }

        if let (Some(bank_e), Some(branch_s)) = (fields.bank_id_pos_e, fields.branch_id_pos_s) {
            assert!(
                branch_s > bank_e,
                "{:?} branch_id overlaps bank_id",
                fields.ctry_cd
            );
        }
    }
}

/// All definitions found by looking up every pair of uppercase letters.
fn all_definitions(non_registry: bool) -> Vec<IbanFields> {
    let mut defs = Vec::new();
    for a in b'A'..=b'Z' {
        for b in b'A'..=b'Z' {
            let cc = [a, b];
            let found = if non_registry {
                if is_non_registry_country(cc) {
                    get_iban_fields_with(cc, CountrySet::WithNonRegistry)
                } else {
                    None
                }
            } else {
                get_iban_fields(cc)
            };
            if let Some(fields) = found {
                assert_eq!(fields.ctry_cd, cc);
                defs.push(fields);
            }
        }
    }
    defs
}

#[test]
fn registry_definitions_are_internally_consistent() {
    let defs = all_definitions(false);
    assert_eq!(defs.len(), 89);
    assert_definitions_consistent(&defs);
}

/// Same sanity checks as `registry_definitions_are_internally_consistent`, applied
/// to the opt-in, non-registry country definitions.
#[test]
fn non_registry_definitions_are_internally_consistent() {
    let defs = all_definitions(true);
    assert_eq!(defs.len(), 22);
    assert_definitions_consistent(&defs);
}

#[test]
fn get_iban_fields_looks_up_by_country_code() {
    assert!(get_iban_fields([b'D', b'E']).is_some());
    assert!(get_iban_fields([b'Z', b'Z']).is_none());
}
