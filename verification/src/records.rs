//! Validated IBANs as plain owned values, the form in which the bindings for
//! other languages and the data-frame plugin hand them out.
use vstd::prelude::*;
use vstd::string::{StringExecFns, StringSliceAdditionalSpecFns};

use crate::ascii::lemma_ascii_bytes_are_utf8;
use crate::cli::{identifier_chars, identifier_or, opt_view, or_default};
use crate::registry::{
    country_set_from_flag, is_non_registry_country, lemma_country_fields_well_formed,
    lemma_non_registry_codes, non_registry_fields, CountrySet, NON_REGISTRY_COUNTRIES,
};
use crate::strings::str_from_utf8;
use crate::validation::{
    error_message, lemma_valid_is_ascii, spec_validate, validate_iban_str_with, Iban,
    ValidationError,
};

verus! {

/// An accepted IBAN with owned copies of its parts, and whether its country
/// is one of those outside the registry.
pub struct IbanRecord {
    pub iban: String,
    pub bank_id: Option<String>,
    pub branch_id: Option<String>,
    pub is_non_registry: bool,
}

/// `r` is the record of the accepted IBAN `s` of the country `f`.
pub open spec fn is_record_of(r: IbanRecord, s: Seq<char>, b: Seq<u8>, f: crate::registry::IbanFields) -> bool {
    &&& r.iban@ == s
    &&& opt_view(r.bank_id) == identifier_chars(s, f.bank_id_pos_s, f.bank_id_pos_e)
    &&& opt_view(r.branch_id) == identifier_chars(s, f.branch_id_pos_s, f.branch_id_pos_e)
    &&& r.is_non_registry == non_registry_fields(b[0], b[1]) is Some
}

/// An owned copy of an optional identifier.
fn owned(id: Option<&str>) -> (o: Option<String>)
    ensures
        opt_view(o) == match id {
            Some(s) => Some(s@),
            None => None::<Seq<char>>,
        },
{
    match id {
        Some(s) => Some(String::from_str(s)),
        None => None,
    }
}

/// Validates `input` against `set` and gives the record of the IBAN, or the
/// reason it is refused.
pub fn parse_iban_record(input: &str, set: CountrySet) -> (res: Result<IbanRecord, ValidationError>)
    ensures
        match spec_validate(input.spec_bytes(), set) {
            Err(e) => res matches Err(x) && x == e,
            Ok(f) => res matches Ok(r) && is_record_of(r, input@, input.spec_bytes(), f),
        },
{
    let parsed = match Iban::new_with(input, set) {
        Ok(parsed) => parsed,
        Err(e) => return Err(e),
    };
    proof {
        lemma_valid_is_ascii(input.spec_bytes(), set);
    }
    let bytes = input.as_bytes();
    let cc: [u8; 2] = [bytes[0], bytes[1]];
    let record = IbanRecord {
        iban: String::from_str(parsed.get_iban()),
        bank_id: owned(parsed.get_bank_id()),
        branch_id: owned(parsed.get_branch_id()),
        is_non_registry: is_non_registry_country(cc),
    };
    Ok(record)
}

/// The country set chosen by an optional flag that allows the countries
/// outside the registry; no flag means the registry only.
pub fn country_set_for(allow_non_registry: Option<bool>) -> (set: CountrySet)
    ensures
        set == country_set_from_flag(allow_non_registry == Some(true)),
{
    let allow = match allow_non_registry {
        Some(flag) => flag,
        None => false,
    };
    CountrySet::from(allow)
}

/// The text reporting a validation error to script callers.
pub fn validation_error_text(e: ValidationError) -> (text: String)
    ensures
        text@ == "Validation error: "@ + error_message(e),
{
    let mut text = String::from_str("Validation error: ");
    let reason = e.to_string();
    text.append(reason.as_str());
    text
}

/// The codes listed in [`NON_REGISTRY_COUNTRIES`] are ASCII.
proof fn lemma_listed_code_is_ascii(i: int)
    requires
        0 <= i < NON_REGISTRY_COUNTRIES@.len(),
    ensures
        NON_REGISTRY_COUNTRIES@[i][0] < 0x80,
        NON_REGISTRY_COUNTRIES@[i][1] < 0x80,
{
    lemma_non_registry_codes();
    let c = NON_REGISTRY_COUNTRIES@[i];
    assert(non_registry_fields(c[0], c[1]) is Some);
    lemma_country_fields_well_formed(c[0], c[1], CountrySet::WithNonRegistry);
    crate::registry::lemma_country_sets_nest(c[0], c[1]);
}

/// The string of the two ASCII characters `c0 c1`.
fn code_string(c0: u8, c1: u8) -> (s: String)
    requires
        c0 < 0x80,
        c1 < 0x80,
    ensures
        s@ == seq![c0 as char, c1 as char],
{
    let pair: [u8; 2] = [c0, c1];
    let slice = pair.as_slice();
    proof {
        assert(slice@ =~= seq![c0, c1]);
        lemma_ascii_bytes_are_utf8(slice@);
    }
    match str_from_utf8(slice) {
        Some(text) => {
            proof {
                crate::ascii::lemma_ascii_str(text);
                assert(text@ =~= seq![c0 as char, c1 as char]) by {
                    vstd::utf8::char_u32_cast(text@[0], text@[0] as u32);
                    vstd::utf8::char_u32_cast(text@[1], text@[1] as u32);
                }
            }
            String::from_str(text)
        },
        None => {
            proof {
                assert(false);
            }
            String::new()
        },
    }
}

/// The two-letter codes of the countries outside the registry, as strings,
/// in the order of [`NON_REGISTRY_COUNTRIES`].
pub fn non_registry_country_codes() -> (codes: Vec<String>)
    ensures
        codes.len() == NON_REGISTRY_COUNTRIES@.len(),
        forall|i: int|
            0 <= i < codes.len() ==> (#[trigger] codes@[i])@ == seq![
                NON_REGISTRY_COUNTRIES@[i][0] as char,
                NON_REGISTRY_COUNTRIES@[i][1] as char,
            ],
{
    let mut codes: Vec<String> = Vec::new();
    let mut i: usize = 0;
    while i < NON_REGISTRY_COUNTRIES.len()
        invariant
            i <= NON_REGISTRY_COUNTRIES@.len(),
            codes.len() == i,
            forall|j: int|
                0 <= j < i ==> (#[trigger] codes@[j])@ == seq![
                    NON_REGISTRY_COUNTRIES@[j][0] as char,
                    NON_REGISTRY_COUNTRIES@[j][1] as char,
                ],
        decreases NON_REGISTRY_COUNTRIES@.len() - i,
    {
        let cc: [u8; 2] = NON_REGISTRY_COUNTRIES[i];
        proof {
            lemma_listed_code_is_ascii(i as int);
        }
        codes.push(code_string(cc[0], cc[1]));
        i += 1;
    }
    codes
}

/// The comma separated record of `value` produced by the data-frame plugin:
/// the IBAN, the bank identifier and the branch identifier (each empty when
/// the country defines none), or an empty text when `value` is refused.
pub open spec fn iban_csv_record(value: Seq<char>, b: Seq<u8>, set: CountrySet) -> Seq<char> {
    match spec_validate(b, set) {
        Ok(f) => value + ","@ + or_default(identifier_chars(value, f.bank_id_pos_s, f.bank_id_pos_e), ""@)
            + ","@ + or_default(identifier_chars(value, f.branch_id_pos_s, f.branch_id_pos_e), ""@),
        Err(_) => ""@,
    }
}

/// Replaces `iban_valid` with the comma separated record of `value`: the
/// IBAN, its bank identifier and its branch identifier, or an empty text when
/// `value` is not a valid IBAN.
pub fn process_iban_str_str(value: &str, set: CountrySet, iban_valid: &mut String)
    ensures
        final(iban_valid)@ == iban_csv_record(value@, value.spec_bytes(), set),
{
    match Iban::new_with(value, set) {
        Ok(valid_iban) => {
            let mut record = String::from_str(valid_iban.get_iban());
            record.append(",");
            record.append(identifier_or(valid_iban.get_bank_id(), ""));
            record.append(",");
            record.append(identifier_or(valid_iban.get_branch_id(), ""));
            *iban_valid = record;
        },
        Err(_) => {
            proof {
                reveal_strlit("");
            }
            *iban_valid = String::new();
        },
    }
}

/// How a value is classified by the data-frame plugin, whatever country set
/// the caller otherwise uses.
pub open spec fn country_status_spec(b: Seq<u8>) -> Seq<char> {
    match spec_validate(b, CountrySet::WithNonRegistry) {
        Ok(_) => if non_registry_fields(b[0], b[1]) is Some {
            "non_registry"@
        } else {
            "registry"@
        },
        Err(_) => "invalid"@,
    }
}

/// Replaces `out` with the class of `value`: `registry` or `non_registry`
/// for a valid IBAN, depending on its country, and `invalid` otherwise.
pub fn country_status_str(value: &str, out: &mut String)
    ensures
        final(out)@ == country_status_spec(value.spec_bytes()),
{
    let status = match validate_iban_str_with(value, CountrySet::WithNonRegistry) {
        Ok(true) => {
            proof {
                lemma_valid_is_ascii(value.spec_bytes(), CountrySet::WithNonRegistry);
            }
            let bytes = value.as_bytes();
            if is_non_registry_country([bytes[0], bytes[1]]) {
                "non_registry"
            } else {
                "registry"
            }
        },
        _ => "invalid",
    };
    *out = String::from_str(status);
}

} // verus!
