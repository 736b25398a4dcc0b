//! Validation of an IBAN in electronic format (and, leniently, in print
//! format), and extraction of its bank and branch identifiers.
use vstd::prelude::*;
use vstd::string::StringExecFns;
use vstd::string::StringSliceAdditionalSpecFns;
use vstd::utf8::is_char_boundary;

use crate::ascii::{ascii_substring, is_ascii_bytes, lemma_ascii_str};
use crate::letters::{check_class, class_value_spec, lemma_class_value_bounds};
use crate::mod97::{mod97_fold, mod97_next};
use crate::strings::{decimal_chars, usize_to_string};
use crate::registry::{
    country_fields, get_iban_fields_with, lemma_country_fields_well_formed, CountrySet,
    IbanFields,
};

verus! {

/// indicate what types of error the iban validation can detect
#[derive(Debug, PartialEq, Eq, Clone, Copy, Structural)]
pub enum ValidationError {
    /// the test Iban is too short for the country
    TooShort(usize),
    /// There is no country in the IBAN
    MissingCountry,
    /// There is no valid country in the IBAN
    InvalidCountry,
    /// Does not follow the structure for the country
    StructureIncorrectForCountry,
    /// The size of the IBAN is not what it should be for the country
    InvalidSizeForCountry,
    /// the modulo mod97 computation for the IBAN is invalid.
    ModuloIncorrect,
    /// to avoid ambiguities some checksum are invalids (00, 01 and 99).
    InvalidChecksum,
}

/// The IBAN with its first four characters (country code and check digits)
/// moved to the end, the order in which the checksum reads it.
pub open spec fn rearranged(b: Seq<u8>) -> Seq<u8> {
    b.subrange(4, b.len() as int) + b.subrange(0, 4)
}

/// The check digits `00`, `01` and `99` are never issued.
pub open spec fn is_forbidden_check_digits(c2: u8, c3: u8) -> bool {
    ||| c2 == 0x30 && c3 == 0x30
    ||| c2 == 0x30 && c3 == 0x31
    ||| c2 == 0x39 && c3 == 0x39
}

/// Checksum value of the byte at position `i` of the rearranged IBAN `r`,
/// if it belongs to the character set the country expects there.
pub open spec fn position_value(f: IbanFields, r: Seq<u8>, i: int) -> Option<int> {
    class_value_spec(f.class_at(i), r[i])
}

/// Every byte of the rearranged IBAN `r` is in the expected character set.
pub open spec fn structure_matches(f: IbanFields, r: Seq<u8>) -> bool {
    forall|i: int| 0 <= i < r.len() ==> #[trigger] position_value(f, r, i) is Some
}

/// The checksum values of the bytes of the rearranged IBAN `r`.
pub open spec fn checksum_values(f: IbanFields, r: Seq<u8>) -> Seq<int> {
    Seq::new(r.len(), |i: int| position_value(f, r, i).unwrap())
}

/// Outcome of validating the UTF-8 bytes `b` of an IBAN in electronic
/// format: the definition of its country, or the first check that fails.
pub open spec fn spec_validate(b: Seq<u8>, set: CountrySet) -> Result<IbanFields, ValidationError> {
    if b.len() < 2 || !is_char_boundary(b, 2) {
        Err(ValidationError::MissingCountry)
    } else {
        match country_fields(b[0], b[1], set) {
            None => Err(ValidationError::InvalidCountry),
            Some(f) => {
                if b.len() != f.spec_iban_len() {
                    Err(ValidationError::InvalidSizeForCountry)
                } else if !is_char_boundary(b, 4) {
                    Err(ValidationError::StructureIncorrectForCountry)
                } else if is_forbidden_check_digits(b[2], b[3]) {
                    Err(ValidationError::InvalidChecksum)
                } else if !structure_matches(f, rearranged(b)) {
                    Err(ValidationError::StructureIncorrectForCountry)
                } else if mod97_fold(checksum_values(f, rearranged(b))) == 1 {
                    Ok(f)
                } else {
                    Err(ValidationError::ModuloIncorrect)
                }
            },
        }
    }
}

/// The boolean form of a validation outcome.
pub open spec fn as_bool_result(r: Result<IbanFields, ValidationError>) -> Result<bool, ValidationError> {
    match r {
        Ok(_) => Ok(true),
        Err(e) => Err(e),
    }
}

/// An accepted IBAN is made of ASCII bytes only.
pub proof fn lemma_valid_is_ascii(b: Seq<u8>, set: CountrySet)
    requires
        spec_validate(b, set) is Ok,
    ensures
        is_ascii_bytes(b),
        b.len() >= 4,
{
    let f = country_fields(b[0], b[1], set).unwrap();
    lemma_country_fields_well_formed(b[0], b[1], set);
    let r = rearranged(b);
    assert forall|i: int| 0 <= i < b.len() implies #[trigger] b[i] < 0x80 by {
        let k = if i >= 4 { i - 4 } else { i + b.len() - 4 };
        assert(r[k] == b[i]);
        assert(position_value(f, r, k) is Some);
        lemma_class_value_bounds(f.class_at(k), r[k]);
    }
}

/// Byte `i` of the rearranged IBAN.
fn rearranged_byte(bytes: &[u8], i: usize) -> (b: u8)
    requires
        bytes@.len() >= 4,
        i < bytes@.len(),
    ensures
        b == rearranged(bytes@)[i as int],
{
    let len = bytes.len();
    if i < len - 4 {
        bytes[i + 4]
    } else {
        bytes[i - (len - 4)]
    }
}

/// Checks every byte of the rearranged IBAN `bytes` against the structure of
/// its country and accumulates the checksum of the first `limit` bytes.
fn checksum_prefix(f: &IbanFields, bytes: &[u8], limit: usize) -> (acc: Option<usize>)
    requires
        f.well_formed(),
        bytes@.len() >= 4,
        limit <= bytes@.len(),
        limit <= f.spec_iban_len(),
    ensures
        match acc {
            Some(a) => structure_matches(*f, rearranged(bytes@).take(limit as int))
                && a == mod97_fold(checksum_values(*f, rearranged(bytes@).take(limit as int))),
            None => !structure_matches(*f, rearranged(bytes@).take(limit as int)),
        },
{
    let ghost r = rearranged(bytes@);
    let mut acc: usize = 0;
    let mut i: usize = 0;
    while i < limit
        invariant
            f.well_formed(),
            bytes@.len() >= 4,
            limit <= bytes@.len(),
            r == rearranged(bytes@),
            r.len() == bytes@.len(),
            i <= limit,
            acc < 97,
            structure_matches(*f, r.take(i as int)),
            acc == mod97_fold(checksum_values(*f, r.take(i as int))),
        decreases limit - i,
    {
        let byte = rearranged_byte(bytes, i);
        match check_class(f.class_of(i), byte) {
            Ok(d) => {
                proof {
                    lemma_class_value_bounds(f.class_at(i as int), byte);
                    let prev = checksum_values(*f, r.take(i as int));
                    let next = checksum_values(*f, r.take(i + 1));
                    assert(next.drop_last() =~= prev);
                    assert(position_value(*f, r.take(i + 1), i as int) == Some(d as int));
                    assert forall|j: int| 0 <= j < i + 1 implies #[trigger] position_value(
                        *f,
                        r.take(i + 1),
                        j,
                    ) is Some by {
                        if j < i {
                            assert(position_value(*f, r.take(i as int), j) is Some);
                        }
                    }
                }
                acc = mod97_next(acc, d);
            },
            Err(_) => {
                proof {
                    assert(position_value(*f, r.take(limit as int), i as int) is None);
                }
                return None;
            },
        }
        i += 1;
    }
    Some(acc)
}

/// Validates an IBAN and returns the definition of its country.
pub fn validate_iban_with_data(input_iban: &str) -> (res: Result<(IbanFields, bool), ValidationError>)
    ensures
        res == match spec_validate(input_iban.spec_bytes(), CountrySet::Registry) {
            Ok(f) => Ok::<(IbanFields, bool), ValidationError>((f, true)),
            Err(e) => Err(e),
        },
{
    validate_iban_with_data_with(input_iban, CountrySet::Registry)
}

/// Same as [`validate_iban_with_data`], but the accepted country set is chosen at
/// runtime via `set`.
pub fn validate_iban_with_data_with(input_iban: &str, set: CountrySet) -> (res: Result<
    (IbanFields, bool),
    ValidationError,
>)
    ensures
        res == match spec_validate(input_iban.spec_bytes(), set) {
            Ok(f) => Ok::<(IbanFields, bool), ValidationError>((f, true)),
            Err(e) => Err(e),
        },
{
    let bytes = input_iban.as_bytes();
    let len = bytes.len();
    if len < 2 || !input_iban.is_char_boundary(2) {
        return Err(ValidationError::MissingCountry);
    }
    let iban_data = match get_iban_fields_with([bytes[0], bytes[1]], set) {
        Some(pattern) => pattern,
        None => return Err(ValidationError::InvalidCountry),
    };
    proof {
        lemma_country_fields_well_formed(bytes@[0], bytes@[1], set);
    }
    if iban_data.iban_len() != len {
        return Err(ValidationError::InvalidSizeForCountry);
    }
    if !input_iban.is_char_boundary(4) {
        return Err(ValidationError::StructureIncorrectForCountry);
    }
    let c2 = bytes[2];
    let c3 = bytes[3];
    if (c2 == 0x30 && (c3 == 0x30 || c3 == 0x31)) || (c2 == 0x39 && c3 == 0x39) {
        return Err(ValidationError::InvalidChecksum);
    }
    let acc = checksum_prefix(&iban_data, bytes, len);
    proof {
        assert(rearranged(bytes@).take(len as int) =~= rearranged(bytes@));
    }
    match acc {
        None => Err(ValidationError::StructureIncorrectForCountry),
        Some(acc) => {
            if acc == 1 {
                Ok((iban_data, true))
            } else {
                Err(ValidationError::ModuloIncorrect)
            }
        },
    }
}

/// Validate that an Iban is valid according to the registry information:
/// `Ok(true)` when it is, otherwise the reason why not.
pub fn validate_iban_str(input_iban: &str) -> (res: Result<bool, ValidationError>)
    ensures
        res == as_bool_result(spec_validate(input_iban.spec_bytes(), CountrySet::Registry)),
{
    validate_iban_str_with(input_iban, CountrySet::Registry)
}

/// Same as [`validate_iban_str`], but the accepted country set is chosen at
/// runtime via `set`.
pub fn validate_iban_str_with(input_iban: &str, set: CountrySet) -> (res: Result<bool, ValidationError>)
    ensures
        res == as_bool_result(spec_validate(input_iban.spec_bytes(), set)),
{
    match validate_iban_with_data_with(input_iban, set) {
        Ok((_, is_valid)) => Ok(is_valid),
        Err(e) => Err(e),
    }
}

/// Print format input is read up to this many bytes, plus one.
pub const RAW_LIMIT: usize = 64;

/// The bytes of `s` other than spaces, in order.
pub open spec fn without_spaces(s: Seq<u8>) -> Seq<u8>
    decreases s.len(),
{
    if s.len() == 0 {
        s
    } else if s.last() == 0x20 {
        without_spaces(s.drop_last())
    } else {
        without_spaces(s.drop_last()).push(s.last())
    }
}

/// The part of print format input that is read: at most `RAW_LIMIT + 1` bytes.
pub open spec fn print_window(b: Seq<u8>) -> Seq<u8> {
    if b.len() <= RAW_LIMIT + 1 {
        b
    } else {
        b.take(RAW_LIMIT + 1)
    }
}

/// Outcome of validating the UTF-8 bytes `b` of an IBAN in print format:
/// spaces are ignored, and the checks run in the order the bytes are read.
pub open spec fn spec_validate_print(b: Seq<u8>, set: CountrySet) -> Result<IbanFields, ValidationError> {
    let l = without_spaces(print_window(b));
    if l.len() < 4 {
        Err(ValidationError::InvalidSizeForCountry)
    } else if is_forbidden_check_digits(l[2], l[3]) {
        Err(ValidationError::InvalidChecksum)
    } else {
        match country_fields(l[0], l[1], set) {
            None => Err(ValidationError::InvalidCountry),
            Some(f) => {
                let q = rearranged(l);
                let n = f.spec_iban_len();
                let read = if q.len() < n {
                    q
                } else {
                    q.take(n)
                };
                if !structure_matches(f, read) {
                    Err(ValidationError::StructureIncorrectForCountry)
                } else if q.len() != n || b.len() > RAW_LIMIT + 1 {
                    Err(ValidationError::InvalidSizeForCountry)
                } else if mod97_fold(checksum_values(f, q)) == 1 {
                    Ok(f)
                } else {
                    Err(ValidationError::ModuloIncorrect)
                }
            },
        }
    }
}

/// Validate an IBAN in user-friendly (print) format.
/// Spaces are allowed and ignored.
/// Other characters are rejected.
pub fn validate_iban_str_print(input: &str) -> (res: Result<bool, ValidationError>)
    ensures
        res == as_bool_result(spec_validate_print(input.spec_bytes(), CountrySet::Registry)),
{
    validate_iban_str_print_with(input, CountrySet::Registry)
}

/// Same as [`validate_iban_str_print`], but the accepted country set is chosen at
/// runtime via `set`.
pub fn validate_iban_str_print_with(input: &str, set: CountrySet) -> (res: Result<bool, ValidationError>)
    ensures
        res == as_bool_result(spec_validate_print(input.spec_bytes(), set)),
{
    let raw = input.as_bytes();
    let raw_len = raw.len();
    let window = if raw_len <= RAW_LIMIT + 1 {
        raw_len
    } else {
        RAW_LIMIT + 1
    };
    let mut logical: Vec<u8> = Vec::new();
    let mut i: usize = 0;
    while i < window
        invariant
            window <= raw@.len(),
            window == print_window(raw@).len(),
            i <= window,
            logical@ == without_spaces(raw@.take(i as int)),
            logical@.len() <= i,
        decreases window - i,
    {
        proof {
            assert(raw@.take(i + 1).drop_last() =~= raw@.take(i as int));
        }
        if raw[i] != 0x20 {
            logical.push(raw[i]);
        }
        i += 1;
    }
    proof {
        assert(raw@.take(window as int) =~= print_window(raw@));
    }
    let qlen = logical.len();
    if qlen < 4 {
        return Err(ValidationError::InvalidSizeForCountry);
    }
    let c2 = logical[2];
    let c3 = logical[3];
    if (c2 == 0x30 && (c3 == 0x30 || c3 == 0x31)) || (c2 == 0x39 && c3 == 0x39) {
        return Err(ValidationError::InvalidChecksum);
    }
    let iban_data = match get_iban_fields_with([logical[0], logical[1]], set) {
        Some(pattern) => pattern,
        None => return Err(ValidationError::InvalidCountry),
    };
    proof {
        lemma_country_fields_well_formed(logical@[0], logical@[1], set);
    }
    let n = iban_data.iban_len();
    let limit = if qlen < n {
        qlen
    } else {
        n
    };
    let acc = checksum_prefix(&iban_data, logical.as_slice(), limit);
    proof {
        let q = rearranged(logical@);
        assert(q.len() < n ==> q.take(limit as int) =~= q);
    }
    match acc {
        None => Err(ValidationError::StructureIncorrectForCountry),
        Some(acc) => {
            if qlen != n || raw_len > RAW_LIMIT + 1 {
                Err(ValidationError::InvalidSizeForCountry)
            } else {
                proof {
                    assert(rearranged(logical@).take(limit as int) =~= rearranged(logical@));
                }
                if acc == 1 {
                    Ok(true)
                } else {
                    Err(ValidationError::ModuloIncorrect)
                }
            }
        },
    }
}

/// Numeric form of an optional identifier position: its byte range `start..end`
/// within the IBAN, or `(0, 0)` when the country defines none.
pub open spec fn numeric_span(s: Option<usize>, e: Option<usize>) -> (int, int) {
    match (s, e) {
        (Some(start), Some(end)) => (start + 3, end + 4),
        _ => (0, 0),
    }
}

/// The numeric outcome for an accepted IBAN of the country `f`: validity and
/// the byte ranges of the bank and branch identifiers.
pub open spec fn numeric_outcome(f: IbanFields) -> (bool, u8, u8, u8, u8) {
    let bank = numeric_span(f.bank_id_pos_s, f.bank_id_pos_e);
    let branch = numeric_span(f.branch_id_pos_s, f.branch_id_pos_e);
    (true, bank.0 as u8, bank.1 as u8, branch.0 as u8, branch.1 as u8)
}

/// Validate than an Iban is valid according to the registry information
/// Give the results by numerical values (0,0 when the optional part is missing).
/// This is meant to be used in c wrapper when copying value is expensive.
pub fn validate_iban_get_numeric(input_iban: &str) -> (res: Result<(bool, u8, u8, u8, u8), ValidationError>)
    ensures
        res == match spec_validate(input_iban.spec_bytes(), CountrySet::Registry) {
            Ok(f) => Ok::<(bool, u8, u8, u8, u8), ValidationError>(numeric_outcome(f)),
            Err(e) => Err(e),
        },
{
    validate_iban_get_numeric_with(input_iban, CountrySet::Registry)
}

fn span_of(s: Option<usize>, e: Option<usize>) -> (span: (u8, u8))
    requires
        match (s, e) {
            (Some(start), Some(end)) => start + 3 < 256 && end + 4 < 256,
            _ => true,
        },
    ensures
        span.0 == numeric_span(s, e).0,
        span.1 == numeric_span(s, e).1,
{
    match (s, e) {
        (Some(start), Some(end)) => ((start + 3) as u8, (end + 4) as u8),
        _ => (0, 0),
    }
}

/// Same as [`validate_iban_get_numeric`], but the accepted country set is chosen
/// at runtime via `set`.
pub fn validate_iban_get_numeric_with(input_iban: &str, set: CountrySet) -> (res: Result<
    (bool, u8, u8, u8, u8),
    ValidationError,
>)
    ensures
        res == match spec_validate(input_iban.spec_bytes(), set) {
            Ok(f) => Ok::<(bool, u8, u8, u8, u8), ValidationError>(numeric_outcome(f)),
            Err(e) => Err(e),
        },
{
    let (iban_data, result) = match validate_iban_with_data_with(input_iban, set) {
        Ok(found) => found,
        Err(e) => return Err(e),
    };
    proof {
        let b = input_iban.spec_bytes();
        lemma_country_fields_well_formed(b[0], b[1], set);
    }
    let (bank_s, bank_e) = span_of(iban_data.bank_id_pos_s, iban_data.bank_id_pos_e);
    let (branch_s, branch_e) = span_of(iban_data.branch_id_pos_s, iban_data.branch_id_pos_e);
    Ok((result, bank_s, bank_e, branch_s, branch_e))
}

/// The byte range of an identifier within an IBAN of `len` bytes, when the
/// country defines its positions and the range fits.
pub open spec fn identifier_span(s: Option<usize>, e: Option<usize>, len: int) -> Option<(int, int)> {
    match (s, e) {
        (Some(start), Some(end)) => if start <= end && 4 + end <= len {
            Some((start + 3, end + 4))
        } else {
            None
        },
        _ => None,
    }
}

/// `id` is the identifier of the string `s` at the positions `start` to `end`:
/// the slice of `s` they designate, or nothing when they designate none.
pub open spec fn is_identifier(id: Option<&str>, s: &str, start: Option<usize>, end: Option<usize>) -> bool {
    match identifier_span(start, end, s.spec_bytes().len() as int) {
        Some((from, to)) => id matches Some(x) && x@ == s@.subrange(from, to)
            && x.spec_bytes() == s.spec_bytes().subrange(from, to),
        None => id is None,
    }
}

/// Indicate how a valid Iban is stored: the validated input itself, and, when
/// the country defines them, the slices of it holding the bank identifier and
/// the branch identifier.
#[derive(Debug)]
pub struct Iban<'a> {
    /// The validated input, given by [`Iban::get_iban`]
    stored_iban: &'a str,
    /// Bank identifier when relevant
    pub iban_bank_id: Option<&'a str>,
    /// Branch identifier when relevant
    pub iban_branch_id: Option<&'a str>,
}

/// building a valid Iban (validate and take the relevant slices).
impl<'a> Iban<'a> {
    /// The validated input.
    pub closed spec fn stored(self) -> &'a str {
        self.stored_iban
    }

    /// The bank identifier, when the country defines one.
    pub closed spec fn bank_id(self) -> Option<&'a str> {
        self.iban_bank_id
    }

    /// The branch identifier, when the country defines one.
    pub closed spec fn branch_id(self) -> Option<&'a str> {
        self.iban_branch_id
    }

    /// `res` is what building an `Iban` from `s` gives: the validation error,
    /// or the IBAN with its identifiers as the country `f` places them.
    pub open spec fn built_from(res: Result<Iban<'a>, ValidationError>, s: &'a str, outcome: Result<IbanFields, ValidationError>) -> bool {
        match outcome {
            Err(e) => res == Err::<Iban<'a>, ValidationError>(e),
            Ok(f) => res matches Ok(iban) && {
                &&& iban.stored() == s
                &&& is_identifier(iban.bank_id(), s, f.bank_id_pos_s, f.bank_id_pos_e)
                &&& is_identifier(iban.branch_id(), s, f.branch_id_pos_s, f.branch_id_pos_e)
            },
        }
    }

    pub fn new(s: &'a str) -> (res: Result<Self, ValidationError>)
        ensures
            Self::built_from(res, s, spec_validate(s.spec_bytes(), CountrySet::Registry)),
    {
        Self::new_with(s, CountrySet::Registry)
    }

    /// Same as [`Iban::new`], but the accepted country set is chosen at runtime
    /// via `set`.
    pub fn new_with(s: &'a str, set: CountrySet) -> (res: Result<Self, ValidationError>)
        ensures
            Self::built_from(res, s, spec_validate(s.spec_bytes(), set)),
    {
        let (iban_data, _) = match validate_iban_with_data_with(s, set) {
            Ok(found) => found,
            Err(e) => return Err(e),
        };
        proof {
            lemma_valid_is_ascii(s.spec_bytes(), set);
        }
        let bank_id = Self::extract_identifier(s, iban_data.bank_id_pos_s, iban_data.bank_id_pos_e);
        let branch_id = Self::extract_identifier(
            s,
            iban_data.branch_id_pos_s,
            iban_data.branch_id_pos_e,
        );
        Ok(Self { stored_iban: s, iban_bank_id: bank_id, iban_branch_id: branch_id })
    }

    /// get read-only access to the Iban
    pub fn get_iban(&self) -> (s: &'a str)
        ensures
            s == self.stored(),
    {
        self.stored_iban
    }

    /// The bank identifier, when the country defines one (also in the public
    /// field `iban_bank_id`).
    pub fn get_bank_id(&self) -> (id: Option<&'a str>)
        ensures
            id == self.bank_id(),
    {
        self.iban_bank_id
    }

    /// The branch identifier, when the country defines one (also in the
    /// public field `iban_branch_id`).
    pub fn get_branch_id(&self) -> (id: Option<&'a str>)
        ensures
            id == self.branch_id(),
    {
        self.iban_branch_id
    }

    /// helper function to fill the bank_id and branch_id
    fn extract_identifier(s: &'a str, start_pos: Option<usize>, end_pos: Option<usize>) -> (id: Option<&'a str>)
        requires
            is_ascii_bytes(s.spec_bytes()),
        ensures
            is_identifier(id, s, start_pos, end_pos),
    {
        let len = s.as_bytes().len();
        match (start_pos, end_pos) {
            (Some(start), Some(end)) => {
                if start <= end && end <= len && 4 <= len - end {
                    Some(ascii_substring(s, start + 3, end + 4))
                } else {
                    None
                }
            },
            _ => None,
        }
    }
}

/// The description of each error.
pub open spec fn error_message(e: ValidationError) -> Seq<char> {
    match e {
        ValidationError::TooShort(len) => "The input Iban is too short to be an IBAN "@ + decimal_chars(
            len as nat,
        ) + " (minimum length is 4)"@,
        ValidationError::MissingCountry => "The input Iban does not appear to start with 2 letters representing a two-letter country code"@,
        ValidationError::InvalidCountry => "the input Iban the first two-letter do not match a valid country"@,
        ValidationError::StructureIncorrectForCountry => "The characters founds in the input Iban do not follow the country's Iban structure"@,
        ValidationError::InvalidSizeForCountry => "The length of the input Iban does match the length for that country"@,
        ValidationError::ModuloIncorrect => "The calculated mod97 for the iban indicates an incorrect Iban"@,
        ValidationError::InvalidChecksum => "The checksum is invalid it can not be 00, 01 or 99"@,
    }
}

impl ValidationError {
    /// The description of the error, for people.
    pub fn to_string(&self) -> (text: String)
        ensures
            text@ == error_message(*self),
    {
        match self {
            ValidationError::TooShort(len) => {
                let mut text = String::from_str("The input Iban is too short to be an IBAN ");
                let digits = usize_to_string(*len);
                text.append(digits.as_str());
                text.append(" (minimum length is 4)");
                text
            },
            ValidationError::MissingCountry => String::from_str(
                "The input Iban does not appear to start with 2 letters representing a two-letter country code",
            ),
            ValidationError::InvalidCountry => String::from_str(
                "the input Iban the first two-letter do not match a valid country",
            ),
            ValidationError::StructureIncorrectForCountry => String::from_str(
                "The characters founds in the input Iban do not follow the country's Iban structure",
            ),
            ValidationError::InvalidSizeForCountry => String::from_str(
                "The length of the input Iban does match the length for that country",
            ),
            ValidationError::ModuloIncorrect => String::from_str(
                "The calculated mod97 for the iban indicates an incorrect Iban",
            ),
            ValidationError::InvalidChecksum => String::from_str(
                "The checksum is invalid it can not be 00, 01 or 99",
            ),
        }
    }
}

/// Indicates which file was used a source
pub fn get_source_file() -> (name: &'static str)
    ensures
        name@ == "iban_registry_v101.txt"@,
{
    "iban_registry_v101.txt"
}

/// Indicates the version used. to be used in other modules like the c wrapper where this infomration is not available.
pub fn get_version() -> (version: &'static str)
    ensures
        version@ == "0.1.29"@,
{
    "0.1.29"
}

} // verus!
