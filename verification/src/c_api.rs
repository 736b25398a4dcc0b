//! What the C interface decides, on the bytes its callers hand over: the
//! status code of each entry point, the identifier positions it fills in, and
//! the message for each status code. Reading the caller's memory is left to
//! the entry points themselves.
use vstd::prelude::*;
use vstd::string::StringSliceAdditionalSpecFns;
use vstd::utf8::valid_utf8;

use crate::registry::{
    lemma_country_fields_well_formed, CountrySet, IbanFields, IBAN_MAX_LEN, IBAN_MIN_LEN,
};
use crate::strings::str_from_utf8;
use crate::validation::{
    is_identifier, numeric_outcome, spec_validate, validate_iban_get_numeric, validate_iban_str,
    validate_iban_with_data, Iban, ValidationError,
};

verus! {

/// Status codes of the C interface.
#[derive(Clone, Copy, Debug, PartialEq, Eq, Structural)]
pub enum IbanErrorCode {
    Valid,
    /// Non plausible length or bytes that are not UTF-8.
    Invalid,
    TooShort,
    MissingCountry,
    InvalidCountry,
    StructureIncorrectForCountry,
    InvalidSize,
    ModuloFailed,
    InvalidChecksum,
}

/// The number C callers see for each status.
pub open spec fn code_value(c: IbanErrorCode) -> i32 {
    match c {
        IbanErrorCode::Valid => 1i32,
        IbanErrorCode::Invalid => 0i32,
        IbanErrorCode::TooShort => -1i32,
        IbanErrorCode::MissingCountry => -2i32,
        IbanErrorCode::InvalidCountry => -3i32,
        IbanErrorCode::StructureIncorrectForCountry => -4i32,
        IbanErrorCode::InvalidSize => -5i32,
        IbanErrorCode::ModuloFailed => -6i32,
        IbanErrorCode::InvalidChecksum => -7i32,
    }
}

impl IbanErrorCode {
    /// The number C callers see for this status.
    pub fn code(&self) -> (value: i32)
        ensures
            value == code_value(*self),
    {
        match self {
            IbanErrorCode::Valid => 1,
            IbanErrorCode::Invalid => 0,
            IbanErrorCode::TooShort => -1,
            IbanErrorCode::MissingCountry => -2,
            IbanErrorCode::InvalidCountry => -3,
            IbanErrorCode::StructureIncorrectForCountry => -4,
            IbanErrorCode::InvalidSize => -5,
            IbanErrorCode::ModuloFailed => -6,
            IbanErrorCode::InvalidChecksum => -7,
        }
    }
}

/// The status reporting a validation error.
pub open spec fn error_code_of(e: ValidationError) -> IbanErrorCode {
    match e {
        ValidationError::TooShort(_) => IbanErrorCode::TooShort,
        ValidationError::MissingCountry => IbanErrorCode::MissingCountry,
        ValidationError::InvalidCountry => IbanErrorCode::InvalidCountry,
        ValidationError::StructureIncorrectForCountry => IbanErrorCode::StructureIncorrectForCountry,
        ValidationError::InvalidSizeForCountry => IbanErrorCode::InvalidSize,
        ValidationError::ModuloIncorrect => IbanErrorCode::ModuloFailed,
        ValidationError::InvalidChecksum => IbanErrorCode::InvalidChecksum,
    }
}

/// Maps a core validation error to the corresponding C status.
pub fn map_validation_error(err: ValidationError) -> (code: IbanErrorCode)
    ensures
        code == error_code_of(err),
{
    match err {
        ValidationError::TooShort(_) => IbanErrorCode::TooShort,
        ValidationError::MissingCountry => IbanErrorCode::MissingCountry,
        ValidationError::InvalidCountry => IbanErrorCode::InvalidCountry,
        ValidationError::StructureIncorrectForCountry => IbanErrorCode::StructureIncorrectForCountry,
        ValidationError::InvalidSizeForCountry => IbanErrorCode::InvalidSize,
        ValidationError::ModuloIncorrect => IbanErrorCode::ModuloFailed,
        ValidationError::InvalidChecksum => IbanErrorCode::InvalidChecksum,
    }
}

/// Validity and identifier positions of an IBAN, by number: the bank
/// identifier is at bytes `bank_s..bank_e`, the branch identifier at
/// `branch_s..branch_e`, and both bounds are 0 when the country defines none.
#[derive(Clone, Copy, Debug, PartialEq, Eq, Structural)]
pub struct IbanValidationResult {
    pub is_valid: bool,
    pub bank_s: u8,
    pub bank_e: u8,
    pub branch_s: u8,
    pub branch_e: u8,
}

impl IbanValidationResult {
    /// The result written when nothing was validated.
    pub fn cleared() -> (r: Self)
        ensures
            r == (IbanValidationResult { is_valid: false, bank_s: 0, bank_e: 0, branch_s: 0, branch_e: 0 }),
    {
        IbanValidationResult { is_valid: false, bank_s: 0, bank_e: 0, branch_s: 0, branch_e: 0 }
    }
}

/// The numeric result for an accepted IBAN of the country `f`.
pub open spec fn numeric_result(f: IbanFields) -> IbanValidationResult {
    let n = numeric_outcome(f);
    IbanValidationResult { is_valid: n.0, bank_s: n.1, bank_e: n.2, branch_s: n.3, branch_e: n.4 }
}

/// An explicit length is only read when an IBAN can have it.
pub open spec fn plausible_length(len: int) -> bool {
    IBAN_MIN_LEN <= len <= IBAN_MAX_LEN
}

/// Whether an IBAN can be `len` bytes long.
pub fn length_in_range(len: usize) -> (ok: bool)
    ensures
        ok == plausible_length(len as int),
{
    IBAN_MIN_LEN as usize <= len && len <= IBAN_MAX_LEN as usize
}

/// How much of the caller's string an entry point reads.
#[derive(Clone, Copy, Debug, PartialEq, Eq, Structural)]
pub enum InputLength {
    /// Up to the NUL terminator.
    UntilNul,
    /// Exactly this many bytes.
    Exact(usize),
}

/// What an entry point given a pointer and an optional length does first.
pub open spec fn optional_length_outcome(is_null: bool, len: usize) -> Result<InputLength, IbanErrorCode> {
    if is_null {
        Err(IbanErrorCode::MissingCountry)
    } else if len == 0 {
        Ok(InputLength::UntilNul)
    } else if plausible_length(len as int) {
        Ok(InputLength::Exact(len))
    } else {
        Err(IbanErrorCode::InvalidSize)
    }
}

/// For an entry point given a pointer and an optional length: a null pointer
/// has no country, a length of 0 means the string ends at its NUL, and any
/// other length is read only when an IBAN can have it.
pub fn read_optional_length(is_null: bool, len: usize) -> (res: Result<InputLength, IbanErrorCode>)
    ensures
        res == optional_length_outcome(is_null, len),
{
    if is_null {
        Err(IbanErrorCode::MissingCountry)
    } else if len == 0 {
        Ok(InputLength::UntilNul)
    } else if length_in_range(len) {
        Ok(InputLength::Exact(len))
    } else {
        Err(IbanErrorCode::InvalidSize)
    }
}

/// What an entry point given a pointer and an exact length does first.
pub open spec fn exact_length_outcome(is_null: bool, len: usize) -> Result<usize, IbanErrorCode> {
    if !plausible_length(len as int) {
        Err(IbanErrorCode::InvalidSize)
    } else if is_null {
        Err(IbanErrorCode::MissingCountry)
    } else {
        Ok(len)
    }
}

/// For an entry point given a pointer and an exact length: a length no IBAN
/// can have is refused before the pointer is looked at, and a null pointer
/// has no country.
pub fn read_exact_length(is_null: bool, len: usize) -> (res: Result<usize, IbanErrorCode>)
    ensures
        res == exact_length_outcome(is_null, len),
{
    if !length_in_range(len) {
        Err(IbanErrorCode::InvalidSize)
    } else if is_null {
        Err(IbanErrorCode::MissingCountry)
    } else {
        Ok(len)
    }
}

/// Status and numeric result for the bytes `b`: `None` when the result is
/// left as it was.
pub open spec fn numeric_bytes_outcome(b: Seq<u8>) -> (IbanErrorCode, Option<IbanValidationResult>) {
    if !valid_utf8(b) {
        (IbanErrorCode::Invalid, None)
    } else {
        match spec_validate(b, CountrySet::Registry) {
            Ok(f) => (IbanErrorCode::Valid, Some(numeric_result(f))),
            Err(e) => (error_code_of(e), None),
        }
    }
}

/// Validates the bytes of an IBAN and gives the status, with the numeric
/// result to write back when the IBAN is valid.
pub fn validate_numeric_bytes(bytes: &[u8]) -> (out: (IbanErrorCode, Option<IbanValidationResult>))
    ensures
        out == numeric_bytes_outcome(bytes@),
{
    let iban = match str_from_utf8(bytes) {
        Some(s) => s,
        None => return (IbanErrorCode::Invalid, None),
    };
    match validate_iban_get_numeric(iban) {
        Ok((true, bank_s, bank_e, branch_s, branch_e)) => (
            IbanErrorCode::Valid,
            Some(IbanValidationResult { is_valid: true, bank_s, bank_e, branch_s, branch_e }),
        ),
        Ok((false, _, _, _, _)) => (IbanErrorCode::Invalid, None),
        Err(err) => (map_validation_error(err), None),
    }
}

/// Status for the bytes `b`, where `utf8_error` is reported for bytes that
/// are not UTF-8.
pub open spec fn bytes_status(b: Seq<u8>, utf8_error: IbanErrorCode) -> IbanErrorCode {
    if !valid_utf8(b) {
        utf8_error
    } else {
        match spec_validate(b, CountrySet::Registry) {
            Ok(_) => IbanErrorCode::Valid,
            Err(e) => error_code_of(e),
        }
    }
}

/// Validates the bytes of an IBAN and gives the status; bytes that are not
/// UTF-8 are `Invalid`.
pub fn validate_bytes(bytes: &[u8]) -> (code: IbanErrorCode)
    ensures
        code == bytes_status(bytes@, IbanErrorCode::Invalid),
{
    status_of_bytes(bytes, IbanErrorCode::Invalid)
}

/// Validates the bytes of a NUL-terminated string (without the NUL) and gives
/// the status; bytes that are not UTF-8 are `StructureIncorrectForCountry`.
pub fn validate_c_string_bytes(bytes: &[u8]) -> (code: IbanErrorCode)
    ensures
        code == bytes_status(bytes@, IbanErrorCode::StructureIncorrectForCountry),
{
    status_of_bytes(bytes, IbanErrorCode::StructureIncorrectForCountry)
}

fn status_of_bytes(bytes: &[u8], utf8_error: IbanErrorCode) -> (code: IbanErrorCode)
    ensures
        code == bytes_status(bytes@, utf8_error),
{
    let iban = match str_from_utf8(bytes) {
        Some(s) => s,
        None => return utf8_error,
    };
    match validate_iban_str(iban) {
        Ok(true) => IbanErrorCode::Valid,
        Ok(false) => IbanErrorCode::Invalid,
        Err(err) => map_validation_error(err),
    }
}

/// A stretch of the caller's string: its first byte and its length.
#[derive(Clone, Copy, Debug, PartialEq, Eq, Structural)]
pub struct StrSpan {
    pub offset: usize,
    pub len: usize,
}

/// Where the parts of a valid IBAN lie in the caller's string: the length of
/// the IBAN, and the span of each identifier the country defines.
#[derive(Clone, Copy, Debug, PartialEq, Eq, Structural)]
pub struct IbanViewSpans {
    pub iban_len: usize,
    pub bank_id: Option<StrSpan>,
    pub branch_id: Option<StrSpan>,
}

/// The span of the identifier at the positions `s` to `e`.
pub open spec fn view_span(s: Option<usize>, e: Option<usize>) -> Option<StrSpan> {
    match (s, e) {
        (Some(start), Some(end)) => Some(
            StrSpan { offset: (start + 3) as usize, len: (1 + end - start) as usize },
        ),
        _ => None,
    }
}

/// Status and spans for a string of the bytes `b`, read up to its NUL
/// terminator or one byte past the longest IBAN.
pub open spec fn view_outcome(b: Seq<u8>) -> (IbanErrorCode, Option<IbanViewSpans>) {
    if !plausible_length(b.len() as int) || !valid_utf8(b) {
        (IbanErrorCode::Invalid, None)
    } else {
        match spec_validate(b, CountrySet::Registry) {
            Ok(f) => (
                IbanErrorCode::Valid,
                Some(
                    IbanViewSpans {
                        iban_len: b.len() as usize,
                        bank_id: view_span(f.bank_id_pos_s, f.bank_id_pos_e),
                        branch_id: view_span(f.branch_id_pos_s, f.branch_id_pos_e),
                    },
                ),
            ),
            Err(e) => (error_code_of(e), None),
        }
    }
}

fn span_of_positions(s: Option<usize>, e: Option<usize>) -> (span: Option<StrSpan>)
    requires
        match (s, e) {
            (Some(start), Some(end)) => start <= end && end < 1000,
            _ => true,
        },
    ensures
        span == view_span(s, e),
{
    match (s, e) {
        (Some(start), Some(end)) => Some(StrSpan { offset: start + 3, len: 1 + end - start }),
        _ => None,
    }
}

/// Validates the bytes of a string read for a view, and gives the status
/// with the spans of its parts when it is valid.
pub fn view_spans(bytes: &[u8]) -> (out: (IbanErrorCode, Option<IbanViewSpans>))
    ensures
        out == view_outcome(bytes@),
{
    if !length_in_range(bytes.len()) {
        return (IbanErrorCode::Invalid, None);
    }
    let iban = match str_from_utf8(bytes) {
        Some(s) => s,
        None => return (IbanErrorCode::Invalid, None),
    };
    let fields = match validate_iban_with_data(iban) {
        Ok((f, _)) => f,
        Err(err) => return (map_validation_error(err), None),
    };
    proof {
        lemma_country_fields_well_formed(bytes@[0], bytes@[1], CountrySet::Registry);
    }
    let bank_id = span_of_positions(fields.bank_id_pos_s, fields.bank_id_pos_e);
    let branch_id = span_of_positions(fields.branch_id_pos_s, fields.branch_id_pos_e);
    (IbanErrorCode::Valid, Some(IbanViewSpans { iban_len: bytes.len(), bank_id, branch_id }))
}

/// Validates the bytes of a NUL-terminated string (without the NUL) and
/// gives the IBAN with its identifiers, or nothing when the bytes are not
/// UTF-8 or not a valid IBAN.
pub fn iban_from_bytes<'a>(bytes: &'a [u8]) -> (res: Option<Iban<'a>>)
    ensures
        res is Some <==> valid_utf8(bytes@) && spec_validate(bytes@, CountrySet::Registry) is Ok,
        res matches Some(iban) ==> {
            let f = spec_validate(bytes@, CountrySet::Registry)->Ok_0;
            &&& iban.stored().spec_bytes() == bytes@
            &&& is_identifier(iban.bank_id(), iban.stored(), f.bank_id_pos_s, f.bank_id_pos_e)
            &&& is_identifier(iban.branch_id(), iban.stored(), f.branch_id_pos_s, f.branch_id_pos_e)
        },
{
    let text = match str_from_utf8(bytes) {
        Some(text) => text,
        None => return None,
    };
    match Iban::new(text) {
        Ok(iban) => Some(iban),
        Err(_) => None,
    }
}

/// The message for a status code, as C callers read it.
pub open spec fn code_message(code: i32) -> Seq<char> {
    if code == 1 {
        "Valid IBAN"@
    } else if code == 0 {
        "Invalid IBAN"@
    } else if code == -1 {
        "IBAN is too short"@
    } else if code == -2 {
        "IBAN is missing country code"@
    } else if code == -3 {
        "IBAN has invalid country code"@
    } else if code == -4 {
        "IBAN structure is incorrect for the country"@
    } else if code == -5 {
        "IBAN length is invalid for the country"@
    } else if code == -6 {
        "IBAN checksum (mod-97) is incorrect"@
    } else if code == -7 {
        "IBAN checksum is invalid (00, 01, or 99 not allowed)"@
    } else {
        "Unknown error code"@
    }
}

/// The message for a status code, followed by a NUL so that C callers can
/// read it in place.
pub fn error_code_message(error_code: i32) -> (text: &'static str)
    ensures
        text@ == code_message(error_code) + "\0"@,
{
    let text = if error_code == 1 {
        "Valid IBAN\0"
    } else if error_code == 0 {
        "Invalid IBAN\0"
    } else if error_code == -1 {
        "IBAN is too short\0"
    } else if error_code == -2 {
        "IBAN is missing country code\0"
    } else if error_code == -3 {
        "IBAN has invalid country code\0"
    } else if error_code == -4 {
        "IBAN structure is incorrect for the country\0"
    } else if error_code == -5 {
        "IBAN length is invalid for the country\0"
    } else if error_code == -6 {
        "IBAN checksum (mod-97) is incorrect\0"
    } else if error_code == -7 {
        "IBAN checksum is invalid (00, 01, or 99 not allowed)\0"
    } else {
        "Unknown error code\0"
    };
    proof {
        reveal_strlit("\0");
        reveal_strlit("Valid IBAN\0");
        reveal_strlit("Valid IBAN");
        reveal_strlit("Invalid IBAN\0");
        reveal_strlit("Invalid IBAN");
        reveal_strlit("IBAN is too short\0");
        reveal_strlit("IBAN is too short");
        reveal_strlit("IBAN is missing country code\0");
        reveal_strlit("IBAN is missing country code");
        reveal_strlit("IBAN has invalid country code\0");
        reveal_strlit("IBAN has invalid country code");
        reveal_strlit("IBAN structure is incorrect for the country\0");
        reveal_strlit("IBAN structure is incorrect for the country");
        reveal_strlit("IBAN length is invalid for the country\0");
        reveal_strlit("IBAN length is invalid for the country");
        reveal_strlit("IBAN checksum (mod-97) is incorrect\0");
        reveal_strlit("IBAN checksum (mod-97) is incorrect");
        reveal_strlit("IBAN checksum is invalid (00, 01, or 99 not allowed)\0");
        reveal_strlit("IBAN checksum is invalid (00, 01, or 99 not allowed)");
        reveal_strlit("Unknown error code\0");
        reveal_strlit("Unknown error code");
        assert(text@ =~= code_message(error_code) + "\0"@);
    }
    text
}

} // verus!
