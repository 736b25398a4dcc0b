//! Properties of the command line front end that hold for every input: what
//! `--quiet` changes, how the counts add up, and how lines are normalized.
use vstd::prelude::*;

use vstd::utf8::{
    decode_utf8, decode_utf8_encode_utf8, encode_utf8, is_ascii_chars_encode_utf8, valid_utf8,
};

use crate::ascii::{lemma_ascii_encoding_has_ascii_chars, lemma_encoded_ascii_char};
use crate::cli::{
    csv_field_spec, format_line_spec, identifier_chars, lemma_next_newline, line_bytes,
    line_candidate, line_output, needs_quoting, next_newline, normalize_spec, or_default, run_from,
    run_line, run_spec, run_start, Args, Format, Report, RunState, CSV_HEADER, format_from_name,
    initial_parse_state, parse_from, format_name, positional_step, ParseOutcome, ParseState,
};
use crate::registry::{lemma_country_fields_well_formed, CountrySet};
use crate::strings::{
    lemma_concat_contains, lemma_decimal_digits, lemma_remove_char, lemma_replace_char_contents,
    lemma_subrange_contains, lemma_trim, lemma_trim_keeps_trimmed, replace_char_spec, trim_chars,
    is_prefix,
};
use crate::properties::lemma_accepted_iban_passes_checksum;
use crate::validation::{error_message, lemma_valid_is_ascii, spec_validate, ValidationError};

verus! {

proof fn lemma_quiet_run_from(args: Args, b: Seq<u8>, start: int, st: RunState, qst: RunState)
    requires
        qst.written == Seq::<u8>::empty(),
        qst.report == st.report,
        qst.failed == st.failed,
    ensures
        run_from(Args { quiet: true, ..args }, b, start, qst).written == Seq::<u8>::empty(),
        run_from(Args { quiet: true, ..args }, b, start, qst).report == run_from(args, b, start, st).report,
        run_from(Args { quiet: true, ..args }, b, start, qst).failed == run_from(args, b, start, st).failed,
    decreases b.len() + 1 - start,
{
    let qargs = Args { quiet: true, ..args };
    if start < 0 || start >= b.len() || st.failed {
    } else {
        let end = next_newline(b, start);
        lemma_next_newline(b, start);
        let line = line_bytes(b, start, end);
        let next = run_line(args, st, line);
        let qnext = run_line(qargs, qst, line);
        assert(qnext.written =~= Seq::<u8>::empty());
        lemma_quiet_run_from(args, b, end + 1, next, qnext);
    }
}

/// `--quiet` writes nothing, not even the CSV header, and changes neither
/// the counts nor whether the input could be read: the exit code is the
/// same as without it.
pub proof fn lemma_quiet_only_silences(args: Args, b: Seq<u8>)
    ensures
        run_spec(Args { quiet: true, ..args }, b).written == Seq::<u8>::empty(),
        run_spec(Args { quiet: true, ..args }, b).report == run_spec(args, b).report,
        run_spec(Args { quiet: true, ..args }, b).failed == run_spec(args, b).failed,
{
    lemma_quiet_run_from(args, b, 0, run_start(args), run_start(Args { quiet: true, ..args }));
}

/// The counts of a run so far add up and stay below the position reached.
pub open spec fn counts_add_up(r: Report, bound: int) -> bool {
    &&& r.valid + r.invalid == r.total
    &&& r.total <= bound
}

proof fn lemma_counts_run_from(args: Args, b: Seq<u8>, start: int, st: RunState)
    requires
        b.len() <= usize::MAX,
        0 <= start <= b.len() + 1,
        counts_add_up(st.report, start),
    ensures
        counts_add_up(run_from(args, b, start, st).report, b.len() as int + 1),
    decreases b.len() + 1 - start,
{
    if start < 0 || start >= b.len() || st.failed {
    } else {
        let end = next_newline(b, start);
        lemma_next_newline(b, start);
        let line = line_bytes(b, start, end);
        lemma_counts_run_from(args, b, end + 1, run_line(args, st, line));
    }
}

/// Every non-empty line read is counted once, as valid or as invalid: the
/// valid and invalid counts of a run add up to its total.
pub proof fn lemma_counts_add_up(args: Args, b: Seq<u8>)
    requires
        b.len() <= usize::MAX,
    ensures
        run_spec(args, b).report.valid + run_spec(args, b).report.invalid == run_spec(args, b).report.total,
{
    lemma_counts_run_from(args, b, 0, run_start(args));
}

/// Normalizing a line that was normalized already changes nothing.
pub proof fn lemma_normalize_is_idempotent(line: Seq<char>, print_format: bool)
    ensures
        normalize_spec(normalize_spec(line, print_format), print_format) == normalize_spec(
            line,
            print_format,
        ),
{
    reveal_strlit("");
    let t = trim_chars(line);
    lemma_trim(line);
    lemma_trim_keeps_trimmed(t);
    if print_format && t.contains(' ') {
        let r = normalize_spec(line, print_format);
        lemma_remove_char(t, ' ');
        assert(""@ =~= Seq::<char>::empty());
        lemma_trim_keeps_trimmed(r);
    }
}

/// `c` ends a line.
pub open spec fn is_line_break(c: char) -> bool {
    c == '\n' || c == '\r'
}

proof fn lemma_concat_contains_all(c: char)
    ensures
        forall|a: Seq<char>, b: Seq<char>| #[trigger] (a + b).contains(c) <==> a.contains(c) || b.contains(c),
{
    assert forall|a: Seq<char>, b: Seq<char>| #[trigger] (a + b).contains(c) <==> a.contains(c) || b.contains(c) by {
        lemma_concat_contains(a, b, c);
    }
}

proof fn lemma_message_has_no_break(e: ValidationError, c: char)
    requires
        is_line_break(c),
    ensures
        !error_message(e).contains(c),
{
    lemma_concat_contains_all(c);
    reveal_strlit("The input Iban is too short to be an IBAN ");
    reveal_strlit(" (minimum length is 4)");
    reveal_strlit("The input Iban does not appear to start with 2 letters representing a two-letter country code");
    reveal_strlit("the input Iban the first two-letter do not match a valid country");
    reveal_strlit("The characters founds in the input Iban do not follow the country's Iban structure");
    reveal_strlit("The length of the input Iban does match the length for that country");
    reveal_strlit("The calculated mod97 for the iban indicates an incorrect Iban");
    reveal_strlit("The checksum is invalid it can not be 00, 01 or 99");
    if let ValidationError::TooShort(len) = e {
        if crate::strings::decimal_chars(len as nat).contains(c) {
            lemma_decimal_digits(len as nat, c);
        }
    }
}

proof fn lemma_csv_field_has_no_break(v: Seq<char>, c: char)
    requires
        is_line_break(c),
        !v.contains(c),
    ensures
        !csv_field_spec(v).contains(c),
{
    lemma_concat_contains_all(c);
    reveal_strlit("\"");
    reveal_strlit("\"\"");
    if needs_quoting(v) && replace_char_spec(v, '"', "\"\""@).contains(c) {
        lemma_replace_char_contents(v, '"', "\"\""@, c);
    }
}

proof fn lemma_identifier_has_no_break(iban: Seq<char>, s: Option<usize>, e: Option<usize>, default: Seq<char>, c: char)
    requires
        !iban.contains(c),
        !default.contains(c),
        encode_utf8(iban).len() == iban.len(),
    ensures
        !or_default(identifier_chars(iban, s, e), default).contains(c),
{
    if let Some(id) = identifier_chars(iban, s, e) {
        let (from, to) = crate::validation::identifier_span(s, e, encode_utf8(iban).len() as int)->Some_0;
        if id.contains(c) {
            lemma_subrange_contains(iban, from, to, c);
        }
    }
}

#[verifier::spinoff_prover]
#[verifier::rlimit(40)]
proof fn lemma_valid_line_has_no_break(iban: Seq<char>, format: Format, set: CountrySet, c: char)
    requires
        is_line_break(c),
        !iban.contains(c),
        spec_validate(encode_utf8(iban), set) is Ok,
    ensures
        !format_line_spec(iban, format, set).contains(c),
{
    let f = spec_validate(encode_utf8(iban), set)->Ok_0;
    lemma_concat_contains_all(c);
    reveal_strlit("\tvalid\t");
    reveal_strlit("\t");
    reveal_strlit("-");
    reveal_strlit("");
    reveal_strlit(",valid,");
    reveal_strlit(",");
    lemma_csv_field_has_no_break(iban, c);
    let b = encode_utf8(iban);
    lemma_valid_is_ascii(b, set);
    lemma_ascii_encoding_has_ascii_chars(iban);
    is_ascii_chars_encode_utf8(iban);
    let bank = identifier_chars(iban, f.bank_id_pos_s, f.bank_id_pos_e);
    let branch = identifier_chars(iban, f.branch_id_pos_s, f.branch_id_pos_e);
    lemma_identifier_has_no_break(iban, f.bank_id_pos_s, f.bank_id_pos_e, "-"@, c);
    lemma_identifier_has_no_break(iban, f.branch_id_pos_s, f.branch_id_pos_e, "-"@, c);
    lemma_identifier_has_no_break(iban, f.bank_id_pos_s, f.bank_id_pos_e, ""@, c);
    lemma_identifier_has_no_break(iban, f.branch_id_pos_s, f.branch_id_pos_e, ""@, c);
    lemma_csv_field_has_no_break(or_default(bank, ""@), c);
    lemma_csv_field_has_no_break(or_default(branch, ""@), c);
}

proof fn lemma_format_line_has_no_break(iban: Seq<char>, format: Format, set: CountrySet, c: char)
    requires
        is_line_break(c),
        !iban.contains(c),
    ensures
        !format_line_spec(iban, format, set).contains(c),
{
    if spec_validate(encode_utf8(iban), set) is Ok {
        lemma_valid_line_has_no_break(iban, format, set, c);
    } else {
        let e = spec_validate(encode_utf8(iban), set)->Err_0;
        lemma_concat_contains_all(c);
        reveal_strlit("\tinvalid\t");
        reveal_strlit(",invalid,,,");
        lemma_csv_field_has_no_break(iban, c);
        lemma_message_has_no_break(e, c);
        lemma_csv_field_has_no_break(error_message(e), c);
    }
}

/// A result line holds no line break when the IBAN it reports holds none,
/// whatever the format and whether the IBAN is valid.
pub proof fn lemma_rendered_line_is_single_line(iban: Seq<char>, format: Format, set: CountrySet)
    requires
        !iban.contains('\n'),
        !iban.contains('\r'),
    ensures
        !format_line_spec(iban, format, set).contains('\n'),
        !format_line_spec(iban, format, set).contains('\r'),
{
    lemma_format_line_has_no_break(iban, format, set, '\n');
    lemma_format_line_has_no_break(iban, format, set, '\r');
}

/// Number of line breaks (newline bytes) in `b`.
pub open spec fn line_breaks(b: Seq<u8>) -> nat
    decreases b.len(),
{
    if b.len() == 0 {
        0
    } else {
        line_breaks(b.drop_last()) + if b.last() == 0x0a {
            1nat
        } else {
            0nat
        }
    }
}

proof fn lemma_line_breaks_concat(a: Seq<u8>, b: Seq<u8>)
    ensures
        line_breaks(a + b) == line_breaks(a) + line_breaks(b),
    decreases b.len(),
{
    if b.len() > 0 {
        assert((a + b).drop_last() =~= a + b.drop_last());
        lemma_line_breaks_concat(a, b.drop_last());
    } else {
        assert(a + b =~= a);
    }
}

proof fn lemma_one_line_break()
    ensures
        line_breaks(seq![0x0au8]) == 1,
{
    assert(seq![0x0au8].drop_last() =~= Seq::<u8>::empty());
    assert(line_breaks(Seq::<u8>::empty()) == 0);
}

proof fn lemma_no_line_breaks(b: Seq<u8>)
    requires
        !b.contains(0x0a),
    ensures
        line_breaks(b) == 0,
    decreases b.len(),
{
    if b.len() > 0 {
        assert(b[b.len() - 1] != 0x0a);
        assert forall|k: int| 0 <= k < b.drop_last().len() implies b.drop_last()[k] != 0x0a by {
            assert(b[k] != 0x0a);
        }
        lemma_no_line_breaks(b.drop_last());
    }
}

/// The bytes written for a line: one line break when it is counted, none
/// when it is empty once normalized.
proof fn lemma_line_output_breaks(args: Args, line: Seq<u8>)
    requires
        valid_utf8(line),
        !line.contains(0x0a),
        !args.quiet,
    ensures
        line_breaks(line_output(args, line)) == if line_candidate(args, line).len() == 0 {
            0nat
        } else {
            1nat
        },
{
    let chars = decode_utf8(line);
    decode_utf8_encode_utf8(line);
    lemma_encoded_ascii_char(chars, '\n', 0x0a);
    let t = trim_chars(chars);
    lemma_trim(chars);
    let candidate = line_candidate(args, line);
    reveal_strlit("");
    assert(!candidate.contains('\n')) by {
        if args.print_format && t.contains(' ') {
            assert(""@ =~= Seq::<char>::empty());
            lemma_remove_char(t, ' ');
        }
    }
    if candidate.len() == 0 {
        reveal_strlit("");
        assert(line_output(args, line) =~= Seq::<u8>::empty());
    } else {
        let rendered = format_line_spec(candidate, args.format, args.country_set);
        lemma_format_line_has_no_break(candidate, args.format, args.country_set, '\n');
        lemma_encoded_ascii_char(rendered, '\n', 0x0a);
        lemma_no_line_breaks(encode_utf8(rendered));
        reveal_strlit("\n");
        is_ascii_chars_encode_utf8("\n"@);
        assert(encode_utf8("\n"@) =~= seq![0x0au8]);
        lemma_line_breaks_concat(encode_utf8(rendered), encode_utf8("\n"@));
        lemma_one_line_break();
    }
}

proof fn lemma_breaks_run_from(args: Args, b: Seq<u8>, start: int, st: RunState)
    requires
        b.len() <= usize::MAX,
        0 <= start <= b.len() + 1,
        counts_add_up(st.report, start),
        !args.quiet,
    ensures
        line_breaks(run_from(args, b, start, st).written) + st.report.total == line_breaks(st.written)
            + run_from(args, b, start, st).report.total,
    decreases b.len() + 1 - start,
{
    if start < 0 || start >= b.len() || st.failed {
    } else {
        let end = next_newline(b, start);
        lemma_next_newline(b, start);
        let line = line_bytes(b, start, end);
        let next = run_line(args, st, line);
        if valid_utf8(line) {
            assert(!line.contains(0x0a)) by {
                if line.contains(0x0a) {
                    let k = choose|k: int| 0 <= k < line.len() && line[k] == 0x0a;
                    assert(b[start + k] == 0x0a);
                }
            }
            lemma_line_output_breaks(args, line);
            lemma_line_breaks_concat(st.written, line_output(args, line));
        }
        lemma_breaks_run_from(args, b, end + 1, next);
    }
}

/// Each counted line gives exactly one line of output, and the CSV header
/// one more: the output holds as many line breaks as lines were counted
/// (plus one for the header), so that input and output can be read side by
/// side.
pub proof fn lemma_one_output_line_per_counted_line(args: Args, b: Seq<u8>)
    requires
        b.len() <= usize::MAX,
        !args.quiet,
    ensures
        line_breaks(run_spec(args, b).written) == run_spec(args, b).report.total + if args.format
            == Format::Csv {
            1nat
        } else {
            0nat
        },
{
    let st = run_start(args);
    lemma_breaks_run_from(args, b, 0, st);
    if args.format == Format::Csv {
        reveal_strlit("iban,valid,bank_id,branch_id,error");
        reveal_strlit("\n");
        lemma_encoded_ascii_char(CSV_HEADER@, '\n', 0x0a);
        lemma_no_line_breaks(encode_utf8(CSV_HEADER@));
        is_ascii_chars_encode_utf8("\n"@);
        assert(encode_utf8("\n"@) =~= seq![0x0au8]);
        lemma_line_breaks_concat(encode_utf8(CSV_HEADER@), encode_utf8("\n"@));
        lemma_one_line_break();
    } else {
        assert(st.written =~= Seq::<u8>::empty());
    }
}

/// Print format input only ever removes spaces, so it can only turn a
/// refused line into an accepted one, never the reverse: a line accepted
/// without it is normalized to the same IBAN with it.
pub proof fn lemma_print_format_only_adds(line: Seq<char>, set: CountrySet)
    ensures
        spec_validate(encode_utf8(normalize_spec(line, false)), set) is Ok ==> normalize_spec(
            line,
            true,
        ) == normalize_spec(line, false),
{
    let t = trim_chars(line);
    if spec_validate(encode_utf8(t), set) is Ok {
        lemma_accepted_iban_passes_checksum(encode_utf8(t), set);
        lemma_encoded_ascii_char(t, ' ', 0x20);
    }
}

/// Number of occurrences of `c` in `s`.
pub open spec fn char_count(s: Seq<char>, c: char) -> nat
    decreases s.len(),
{
    if s.len() == 0 {
        0
    } else {
        char_count(s.drop_last(), c) + if s.last() == c {
            1nat
        } else {
            0nat
        }
    }
}

proof fn lemma_char_count_concat(a: Seq<char>, b: Seq<char>, c: char)
    ensures
        char_count(a + b, c) == char_count(a, c) + char_count(b, c),
    decreases b.len(),
{
    if b.len() > 0 {
        assert((a + b).drop_last() =~= a + b.drop_last());
        lemma_char_count_concat(a, b.drop_last(), c);
    } else {
        assert(a + b =~= a);
    }
}

proof fn lemma_char_count_absent(s: Seq<char>, c: char)
    requires
        !s.contains(c),
    ensures
        char_count(s, c) == 0,
    decreases s.len(),
{
    if s.len() > 0 {
        assert(s[s.len() - 1] != c);
        assert forall|k: int| 0 <= k < s.drop_last().len() implies s.drop_last()[k] != c by {
            assert(s[k] != c);
        }
        lemma_char_count_absent(s.drop_last(), c);
    }
}

proof fn lemma_one_comma()
    ensures
        char_count(","@, ',') == 1,
{
    reveal_strlit(",");
    assert(","@.drop_last() =~= Seq::<char>::empty());
    assert(char_count(Seq::<char>::empty(), ',') == 0);
}

/// A text without commas, quotes or line breaks is its own CSV field.
proof fn lemma_plain_csv_field(v: Seq<char>)
    requires
        !v.contains(','),
        !v.contains('"'),
        !v.contains('\n'),
        !v.contains('\r'),
    ensures
        csv_field_spec(v) == v,
{
}

/// The reason of every error but the forbidden check digits holds no comma
/// and no quote.
proof fn lemma_message_is_plain(e: ValidationError)
    requires
        e != ValidationError::InvalidChecksum,
    ensures
        !error_message(e).contains(','),
        !error_message(e).contains('"'),
        !error_message(e).contains('\n'),
        !error_message(e).contains('\r'),
{
    lemma_message_has_no_break(e, '\n');
    lemma_message_has_no_break(e, '\r');
    lemma_concat_contains_all(',');
    lemma_concat_contains_all('"');
    reveal_strlit("The input Iban is too short to be an IBAN ");
    reveal_strlit(" (minimum length is 4)");
    reveal_strlit("The input Iban does not appear to start with 2 letters representing a two-letter country code");
    reveal_strlit("the input Iban the first two-letter do not match a valid country");
    reveal_strlit("The characters founds in the input Iban do not follow the country's Iban structure");
    reveal_strlit("The length of the input Iban does match the length for that country");
    reveal_strlit("The calculated mod97 for the iban indicates an incorrect Iban");
    if let ValidationError::TooShort(len) = e {
        if crate::strings::decimal_chars(len as nat).contains(',') {
            lemma_decimal_digits(len as nat, ',');
        }
        if crate::strings::decimal_chars(len as nat).contains('"') {
            lemma_decimal_digits(len as nat, '"');
        }
    }
}

proof fn lemma_plain_identifier(iban: Seq<char>, s: Option<usize>, e: Option<usize>)
    requires
        !iban.contains(','),
        !iban.contains('"'),
        !iban.contains('\n'),
        !iban.contains('\r'),
        encode_utf8(iban).len() == iban.len(),
    ensures
        csv_field_spec(or_default(identifier_chars(iban, s, e), ""@)) == or_default(
            identifier_chars(iban, s, e),
            ""@,
        ),
        char_count(or_default(identifier_chars(iban, s, e), ""@), ',') == 0,
{
    reveal_strlit("");
    lemma_identifier_has_no_break(iban, s, e, ""@, ',');
    lemma_identifier_has_no_break(iban, s, e, ""@, '"');
    lemma_identifier_has_no_break(iban, s, e, ""@, '\n');
    lemma_identifier_has_no_break(iban, s, e, ""@, '\r');
    lemma_char_count_absent(or_default(identifier_chars(iban, s, e), ""@), ',');
}

/// A CSV row has the five fields of the header, four commas, when the IBAN
/// holds no comma, quote or line break and it is not refused for forbidden
/// check digits (whose reason, quoted, holds a comma).
pub proof fn lemma_csv_row_has_five_fields(iban: Seq<char>, set: CountrySet)
    requires
        !iban.contains(','),
        !iban.contains('"'),
        !iban.contains('\n'),
        !iban.contains('\r'),
        spec_validate(encode_utf8(iban), set) != Err::<crate::registry::IbanFields, ValidationError>(
            ValidationError::InvalidChecksum,
        ),
    ensures
        char_count(format_line_spec(iban, Format::Csv, set), ',') == 4,
{
    lemma_plain_csv_field(iban);
    lemma_char_count_absent(iban, ',');
    lemma_one_comma();
    match spec_validate(encode_utf8(iban), set) {
        Ok(f) => {
            lemma_valid_is_ascii(encode_utf8(iban), set);
            lemma_ascii_encoding_has_ascii_chars(iban);
            is_ascii_chars_encode_utf8(iban);
            let bank = or_default(identifier_chars(iban, f.bank_id_pos_s, f.bank_id_pos_e), ""@);
            let branch = or_default(identifier_chars(iban, f.branch_id_pos_s, f.branch_id_pos_e), ""@);
            lemma_plain_identifier(iban, f.bank_id_pos_s, f.bank_id_pos_e);
            lemma_plain_identifier(iban, f.branch_id_pos_s, f.branch_id_pos_e);
            reveal_strlit(",valid,");
            reveal_strlit("valid");
            reveal_strlit(",");
            assert(",valid,"@ =~= ","@ + "valid"@ + ","@);
            lemma_char_count_absent("valid"@, ',');
            lemma_char_count_concat(","@, "valid"@, ',');
            lemma_char_count_concat(","@ + "valid"@, ","@, ',');
            lemma_char_count_concat(iban, ",valid,"@, ',');
            lemma_char_count_concat(iban + ",valid,"@, bank, ',');
            lemma_char_count_concat(iban + ",valid,"@ + bank, ","@, ',');
            lemma_char_count_concat(iban + ",valid,"@ + bank + ","@, branch, ',');
            lemma_char_count_concat(iban + ",valid,"@ + bank + ","@ + branch, ","@, ',');
        },
        Err(e) => {
            lemma_message_is_plain(e);
            lemma_plain_csv_field(error_message(e));
            lemma_char_count_absent(error_message(e), ',');
            reveal_strlit(",invalid,,,");
            reveal_strlit("invalid");
            reveal_strlit(",");
            assert(",invalid,,,"@ =~= ","@ + "invalid"@ + ","@ + ","@ + ","@);
            lemma_char_count_absent("invalid"@, ',');
            lemma_char_count_concat(","@, "invalid"@, ',');
            lemma_char_count_concat(","@ + "invalid"@, ","@, ',');
            lemma_char_count_concat(","@ + "invalid"@ + ","@, ","@, ',');
            lemma_char_count_concat(","@ + "invalid"@ + ","@ + ","@, ","@, ',');
            lemma_char_count_concat(iban, ",invalid,,,"@, ',');
            lemma_char_count_concat(iban + ",invalid,,,"@, error_message(e), ',');
        },
    }
}

/// Arguments that parse to a run on their own are read the same way when
/// more arguments follow them; reading then goes on from where they left it.
proof fn lemma_parse_prefix(a: Seq<Seq<char>>, rest: Seq<Seq<char>>, i: int, st: ParseState)
    requires
        0 <= i <= a.len(),
        parse_from(a, i, st) is Run,
    ensures
        parse_from(a + rest, i, st) == parse_from(a + rest, a.len() as int, parse_from(a, i, st)->Run_0),
    decreases a.len() - i,
{
    if i < a.len() {
        let x = a[i];
        assert((a + rest)[i] == x);
        if x == "-h"@ || x == "--help"@ || x == "-V"@ || x == "--version"@ {
        } else if x == "-q"@ || x == "--quiet"@ {
            lemma_parse_prefix(a, rest, i + 1, ParseState { quiet: true, ..st });
        } else if x == "--print-format"@ {
            lemma_parse_prefix(a, rest, i + 1, ParseState { print_format: true, ..st });
        } else if x == "--non-registry"@ {
            lemma_parse_prefix(a, rest, i + 1, ParseState { country_set: CountrySet::WithNonRegistry, ..st });
        } else if x == "-f"@ || x == "--format"@ {
            assert(i + 1 < a.len());
            assert((a + rest)[i + 1] == a[i + 1]);
            if let Ok(f) = format_from_name(a[i + 1]) {
                lemma_parse_prefix(a, rest, i + 2, ParseState { format: f, ..st });
            }
        } else if is_prefix("--format="@, x) {
            if let Ok(f) = format_from_name(x.skip("--format="@.len() as int)) {
                lemma_parse_prefix(a, rest, i + 1, ParseState { format: f, ..st });
            }
        } else if x != "-"@ && is_prefix("-"@, x) && x.skip("-"@.len() as int).len() > 0 {
        } else {
            if let Ok(next) = positional_step(st, x) {
                lemma_parse_prefix(a, rest, i + 1, next);
            }
        }
    }
}

/// `-h`/`--help` and `-V`/`--version` win over whatever follows them, once
/// the arguments before them parse: the invocation is then the help or the
/// version, even when an unknown option comes after.
pub proof fn lemma_help_and_version_win(a: Seq<Seq<char>>, flag: Seq<char>, b: Seq<Seq<char>>)
    requires
        parse_from(a, 0, initial_parse_state()) is Run,
        flag == "-h"@ || flag == "--help"@ || flag == "-V"@ || flag == "--version"@,
    ensures
        parse_from(a + seq![flag] + b, 0, initial_parse_state()) == if flag == "-h"@ || flag
            == "--help"@ {
            ParseOutcome::Help
        } else {
            ParseOutcome::Version
        },
{
    let rest = seq![flag] + b;
    assert(a + seq![flag] + b =~= a + rest);
    lemma_parse_prefix(a, rest, 0, initial_parse_state());
    assert((a + rest)[a.len() as int] == flag);
    reveal_strlit("-h");
    reveal_strlit("--help");
    reveal_strlit("-V");
    reveal_strlit("--version");
    assert("-V"@ != "-h"@) by {
        assert("-V"@[1] != "-h"@[1]);
    }
}

/// An option that is not known is refused, whatever follows it, once the
/// arguments before it parse.
pub proof fn lemma_unknown_option_is_refused(a: Seq<Seq<char>>, option: Seq<char>, b: Seq<Seq<char>>)
    requires
        parse_from(a, 0, initial_parse_state()) is Run,
        option.len() > 1,
        option[0] == '-',
        option != "-h"@,
        option != "--help"@,
        option != "-V"@,
        option != "--version"@,
        option != "-q"@,
        option != "--quiet"@,
        option != "--print-format"@,
        option != "--non-registry"@,
        option != "-f"@,
        option != "--format"@,
        !is_prefix("--format="@, option),
    ensures
        parse_from(a + seq![option] + b, 0, initial_parse_state()) == ParseOutcome::Failed(
            "unknown option: "@ + option,
        ),
{
    let rest = seq![option] + b;
    assert(a + seq![option] + b =~= a + rest);
    lemma_parse_prefix(a, rest, 0, initial_parse_state());
    assert((a + rest)[a.len() as int] == option);
    reveal_strlit("-");
    assert(option.take(1) =~= "-"@);
    assert(option != "-"@);
}

/// A format name is read as the format of that name, each format is read
/// back from its name, and no other name is accepted: `--format text` asks
/// for text and `--format csv` for CSV.
pub proof fn lemma_format_names_round_trip(v: Seq<char>, f: Format)
    ensures
        format_from_name(v) matches Ok(g) ==> format_name(g) == v,
        format_from_name(format_name(f)) == Ok::<Format, Seq<char>>(f),
        format_from_name(v) is Err <==> v != format_name(Format::Text) && v != format_name(Format::Csv),
{
    reveal_strlit("text");
    reveal_strlit("csv");
    assert("text"@.len() != "csv"@.len());
}

} // verus!
