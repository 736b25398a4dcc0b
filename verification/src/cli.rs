//! Command line front end: reads IBANs, one per line, and reports for each
//! whether it is valid together with the bank and branch identifiers that the
//! registry defines for its country.
//!
//! Everything the command does is here, as functions on plain values, so it
//! can be checked without spawning a process; the program itself only reads
//! the input, writes the output and turns the report into an exit code.
use std::borrow::Cow;

use vstd::prelude::*;
use vstd::slice::slice_subrange;
use vstd::string::{StringExecFns, StringSliceAdditionalSpecFns};
use vstd::utf8::{decode_utf8, encode_utf8, encode_utf8_decode_utf8, valid_utf8};

use crate::registry::CountrySet;
use crate::strings::{
    contains_char, is_prefix, replace_char, replace_char_spec, str_eq, str_from_utf8,
    strip_prefix, trim, trim_chars,
};
use crate::validation::{
    error_message, get_source_file, get_version, identifier_span, spec_validate, Iban,
    ValidationError,
};

verus! {

/// How each result line is rendered.
#[derive(Clone, Copy, Debug, PartialEq, Eq, Structural)]
pub enum Format {
    /// Tab separated, human readable: `<iban>\t<valid|invalid>\t<bank>\t<branch>`.
    Text,
    /// Comma separated with a header line, for piping into a data tool.
    Csv,
}

impl Default for Format {
    fn default() -> (format: Self)
        ensures
            format == Format::Text,
    {
        Format::Text
    }
}

/// The name of a format, as given to `--format`.
pub open spec fn format_name(format: Format) -> Seq<char> {
    match format {
        Format::Text => "text"@,
        Format::Csv => "csv"@,
    }
}

impl Format {
    /// The name of the format, as given to `--format`.
    pub fn to_string(&self) -> (name: String)
        ensures
            name@ == format_name(*self),
    {
        match self {
            Format::Text => String::from_str("text"),
            Format::Csv => String::from_str("csv"),
        }
    }
}

/// The options a run is driven by, as produced by [`parse_args`].
#[derive(Clone, Debug, PartialEq)]
pub struct Args {
    /// File to read, or `None` to read standard input.
    pub path: Option<String>,
    /// Output rendering.
    pub format: Format,
    /// Suppress per-line output; only the exit code reports the outcome.
    pub quiet: bool,
    /// Which country set validation accepts.
    pub country_set: CountrySet,
    /// Accept print format input (spaces are removed before validating).
    pub print_format: bool,
}

impl Default for Args {
    fn default() -> (args: Self)
        ensures
            args.path is None,
            args.format == Format::Text,
            !args.quiet,
            args.country_set == CountrySet::Registry,
            !args.print_format,
    {
        Args {
            path: None,
            format: Format::Text,
            quiet: false,
            country_set: CountrySet::Registry,
            print_format: false,
        }
    }
}

/// What the command line asked for.
#[derive(Clone, Debug, PartialEq)]
pub enum Invocation {
    /// Validate, using these options.
    Run(Args),
    /// Print the usage text and exit successfully.
    Help,
    /// Print the version text and exit successfully.
    Version,
}

/// Counts collected over a run, used to pick the process exit code.
#[derive(Clone, Copy, Debug, PartialEq, Eq, Structural)]
pub struct Report {
    /// Number of non-empty lines that were checked.
    pub total: usize,
    /// How many of them validated.
    pub valid: usize,
    /// How many of them did not.
    pub invalid: usize,
}

impl Default for Report {
    fn default() -> (report: Self)
        ensures
            report == (Report { total: 0, valid: 0, invalid: 0 }),
    {
        Report { total: 0, valid: 0, invalid: 0 }
    }
}

/// Usage text, also shown when the arguments do not parse.
pub const USAGE: &'static str = "\
iban_validation_cli - validate IBANs and extract bank and branch identifiers

USAGE:
    iban_validation_cli [OPTIONS] [FILE]

    FILE is read one IBAN per line; empty lines are skipped. When FILE is absent
    or is `-`, standard input is read instead.

OPTIONS:
    -f, --format <text|csv>  Output format (default: text)
    -q, --quiet              Print nothing; report the outcome through the exit code
        --print-format       Accept print format input (spaces are removed first)
        --non-registry       Also accept the 22 community-sourced, non-registry countries
    -h, --help               Print this help
    -V, --version            Print version information

EXIT CODES:
    0  every IBAN read was valid (including when nothing was read)
    1  at least one IBAN was invalid
    2  the arguments or the input file could not be used

EXAMPLES:
    echo DE44500105175407324931 | iban_validation_cli
    iban_validation_cli --format csv ibans.txt > checked.csv
";

/// The CSV header, written before the first row in [`Format::Csv`].
pub const CSV_HEADER: &'static str = "iban,valid,bank_id,branch_id,error";

/// Exit code used when the arguments or the input file could not be used.
pub const USAGE_EXIT_CODE: i32 = 2;

/// The error type callers get back from [`Iban::new_with`].
pub type Error = ValidationError;

/// Version of the command line front end.
pub const CLI_VERSION: &'static str = "0.1.29";

/// The version text.
pub open spec fn version_text_spec() -> Seq<char> {
    "iban_validation_cli "@ + CLI_VERSION@ + " (iban_validation_rs "@ + "0.1.29"@ + ", registry "@
        + trim_chars("iban_registry_v101.txt"@) + ")"@
}

/// Version text for `--version`, naming the registry the country data was generated from.
pub fn version_text() -> (text: String)
    ensures
        text@ == version_text_spec(),
{
    let mut text = String::from_str("iban_validation_cli ");
    text.append(CLI_VERSION);
    text.append(" (iban_validation_rs ");
    text.append(get_version());
    text.append(", registry ");
    text.append(trim(get_source_file()));
    text.append(")");
    text
}

/// The options gathered while reading the arguments.
pub struct ParseState {
    pub format: Format,
    pub quiet: bool,
    pub country_set: CountrySet,
    pub print_format: bool,
    /// The positional argument, if one was given.
    pub positional: Option<Seq<char>>,
}

/// What reading the arguments leads to.
pub enum ParseOutcome {
    Run(ParseState),
    Help,
    Version,
    /// The arguments do not parse, for the reason given.
    Failed(Seq<char>),
}

/// The options before any argument is read.
pub open spec fn initial_parse_state() -> ParseState {
    ParseState {
        format: Format::Text,
        quiet: false,
        country_set: CountrySet::Registry,
        print_format: false,
        positional: None,
    }
}

/// The format named `v`, or the reason it is refused.
pub open spec fn format_from_name(v: Seq<char>) -> Result<Format, Seq<char>> {
    if v == "text"@ {
        Ok(Format::Text)
    } else if v == "csv"@ {
        Ok(Format::Csv)
    } else {
        Err("unknown format: "@ + v + " (expected text or csv)"@)
    }
}

/// The reason a second positional argument `value` is refused.
pub open spec fn extra_argument_message(value: Seq<char>, existing: Seq<char>) -> Seq<char> {
    "unexpected extra argument: "@ + value + " (already reading "@ + existing + ")"@
}

/// The options after `value` is given as the positional argument, or the
/// reason it is refused.
pub open spec fn positional_step(st: ParseState, value: Seq<char>) -> Result<ParseState, Seq<char>> {
    match st.positional {
        Some(existing) => Err(extra_argument_message(value, existing)),
        None => Ok(ParseState { positional: Some(value), ..st }),
    }
}

/// Read the arguments from position `i` on, with the options `st` gathered so far.
pub open spec fn parse_from(args: Seq<Seq<char>>, i: int, st: ParseState) -> ParseOutcome
    decreases args.len() - i,
{
    if i < 0 || i >= args.len() {
        ParseOutcome::Run(st)
    } else {
        let a = args[i];
        if a == "-h"@ || a == "--help"@ {
            ParseOutcome::Help
        } else if a == "-V"@ || a == "--version"@ {
            ParseOutcome::Version
        } else if a == "-q"@ || a == "--quiet"@ {
            parse_from(args, i + 1, ParseState { quiet: true, ..st })
        } else if a == "--print-format"@ {
            parse_from(args, i + 1, ParseState { print_format: true, ..st })
        } else if a == "--non-registry"@ {
            parse_from(args, i + 1, ParseState { country_set: CountrySet::WithNonRegistry, ..st })
        } else if a == "-f"@ || a == "--format"@ {
            if i + 1 >= args.len() {
                ParseOutcome::Failed("missing value for "@ + a)
            } else {
                match format_from_name(args[i + 1]) {
                    Ok(f) => parse_from(args, i + 2, ParseState { format: f, ..st }),
                    Err(m) => ParseOutcome::Failed(m),
                }
            }
        } else if is_prefix("--format="@, a) {
            match format_from_name(a.skip("--format="@.len() as int)) {
                Ok(f) => parse_from(args, i + 1, ParseState { format: f, ..st }),
                Err(m) => ParseOutcome::Failed(m),
            }
        } else if a != "-"@ && is_prefix("-"@, a) && a.skip("-"@.len() as int).len() > 0 {
            ParseOutcome::Failed("unknown option: "@ + a)
        } else {
            match positional_step(st, a) {
                Ok(next) => parse_from(args, i + 1, next),
                Err(m) => ParseOutcome::Failed(m),
            }
        }
    }
}

/// The view of an optional string.
pub open spec fn opt_view(o: Option<String>) -> Option<Seq<char>> {
    match o {
        Some(s) => Some(s@),
        None => None,
    }
}

/// The file to read: the positional argument, unless it is `-` (standard input).
pub open spec fn path_of(positional: Option<Seq<char>>) -> Option<Seq<char>> {
    match positional {
        Some(p) => if p == "-"@ {
            None
        } else {
            Some(p)
        },
        None => None,
    }
}

/// `res` is what [`parse_args`] returns for the outcome `o`.
pub open spec fn parse_result(res: Result<Invocation, String>, o: ParseOutcome) -> bool {
    match o {
        ParseOutcome::Run(st) => match res {
            Ok(Invocation::Run(a)) => {
                &&& a.format == st.format
                &&& a.quiet == st.quiet
                &&& a.country_set == st.country_set
                &&& a.print_format == st.print_format
                &&& opt_view(a.path) == path_of(st.positional)
            },
            _ => false,
        },
        ParseOutcome::Help => res matches Ok(Invocation::Help),
        ParseOutcome::Version => res matches Ok(Invocation::Version),
        ParseOutcome::Failed(m) => res matches Err(e) && e@ == m,
    }
}

/// The error for arguments refused for the reason `reason`: the reason, a
/// blank line, then the usage text.
pub open spec fn usage_message(reason: Seq<char>) -> Seq<char> {
    reason + "\n\n"@ + USAGE@
}

/// The outcome `o`, where a refusal carries the usage text after its reason.
pub open spec fn with_usage(o: ParseOutcome) -> ParseOutcome {
    match o {
        ParseOutcome::Failed(m) => ParseOutcome::Failed(usage_message(m)),
        _ => o,
    }
}

/// The views of the arguments.
pub open spec fn arg_views(args: Seq<&str>) -> Seq<Seq<char>> {
    args.map_values(|a: &str| a@)
}

/// Parse a format name.
pub fn parse_format(value: &str) -> (res: Result<Format, String>)
    ensures
        match format_from_name(value@) {
            Ok(f) => res == Ok::<Format, String>(f),
            Err(m) => res matches Err(e) && e@ == m,
        },
{
    if str_eq(value, "text") {
        Ok(Format::Text)
    } else if str_eq(value, "csv") {
        Ok(Format::Csv)
    } else {
        let mut message = String::from_str("unknown format: ");
        message.append(value);
        message.append(" (expected text or csv)");
        Err(message)
    }
}

/// Record `value` as the positional argument, unless one was given already.
pub fn set_positional(slot: &mut Option<String>, value: String) -> (res: Result<(), String>)
    ensures
        match opt_view(*old(slot)) {
            Some(existing) => res matches Err(m) && m@ == extra_argument_message(value@, existing)
                && opt_view(*final(slot)) == opt_view(*old(slot)),
            None => res is Ok && opt_view(*final(slot)) == Some(value@),
        },
{
    match slot {
        Some(existing) => {
            let mut message = String::from_str("unexpected extra argument: ");
            message.append(value.as_str());
            message.append(" (already reading ");
            message.append(existing.as_str());
            message.append(")");
            Err(message)
        },
        None => {
            *slot = Some(value);
            Ok(())
        },
    }
}

/// Parse the command line arguments, excluding the program name.
///
/// Returns the usage message as the error when an argument is unknown, misses
/// its value, or a second positional argument is given: the reason, a blank
/// line, then [`USAGE`].
pub fn parse_args(args: &[&str]) -> (res: Result<Invocation, String>)
    ensures
        parse_result(res, with_usage(parse_from(arg_views(args@), 0, initial_parse_state()))),
{
    match parse_reason(args) {
        Ok(invocation) => Ok(invocation),
        Err(reason) => {
            let mut message = reason;
            message.append("\n\n");
            message.append(USAGE);
            Err(message)
        },
    }
}

/// Parse the command line arguments, with the bare reason as the error.
fn parse_reason(args: &[&str]) -> (res: Result<Invocation, String>)
    ensures
        parse_result(res, parse_from(arg_views(args@), 0, initial_parse_state())),
{
    let ghost views = arg_views(args@);
    let mut format = Format::Text;
    let mut quiet = false;
    let mut country_set = CountrySet::Registry;
    let mut print_format = false;
    let mut positional: Option<String> = None;
    let mut i: usize = 0;
    while i < args.len()
        invariant
            views == arg_views(args@),
            views.len() == args@.len(),
            i <= args@.len(),
            parse_from(views, 0, initial_parse_state()) == parse_from(
                views,
                i as int,
                ParseState {
                    format,
                    quiet,
                    country_set,
                    print_format,
                    positional: opt_view(positional),
                },
            ),
        decreases args@.len() - i,
    {
        let arg = args[i];
        assert(views[i as int] == arg@);
        if str_eq(arg, "-h") || str_eq(arg, "--help") {
            return Ok(Invocation::Help);
        } else if str_eq(arg, "-V") || str_eq(arg, "--version") {
            return Ok(Invocation::Version);
        } else if str_eq(arg, "-q") || str_eq(arg, "--quiet") {
            quiet = true;
            i += 1;
        } else if str_eq(arg, "--print-format") {
            print_format = true;
            i += 1;
        } else if str_eq(arg, "--non-registry") {
            country_set = CountrySet::WithNonRegistry;
            i += 1;
        } else if str_eq(arg, "-f") || str_eq(arg, "--format") {
            if i + 1 >= args.len() {
                let mut message = String::from_str("missing value for ");
                message.append(arg);
                return Err(message);
            }
            assert(views[i + 1] == args@[i + 1]@);
            match parse_format(args[i + 1]) {
                Ok(f) => {
                    format = f;
                    i += 2;
                },
                Err(message) => return Err(message),
            }
        } else {
            match strip_prefix(arg, "--format=") {
                Some(value) => {
                    match parse_format(value) {
                        Ok(f) => {
                            format = f;
                            i += 1;
                        },
                        Err(message) => return Err(message),
                    }
                },
                None => {
                    if str_eq(arg, "-") {
                        match set_positional(&mut positional, String::from_str("-")) {
                            Ok(()) => {},
                            Err(message) => return Err(message),
                        }
                        i += 1;
                    } else {
                        let unknown = match strip_prefix(arg, "-") {
                            Some(rest) => !rest.is_empty(),
                            None => false,
                        };
                        if unknown {
                            let mut message = String::from_str("unknown option: ");
                            message.append(arg);
                            return Err(message);
                        }
                        match set_positional(&mut positional, String::from_str(arg)) {
                            Ok(()) => {},
                            Err(message) => return Err(message),
                        }
                        i += 1;
                    }
                },
            }
        }
    }
    let path = match positional {
        Some(p) => {
            if str_eq(p.as_str(), "-") {
                None
            } else {
                Some(p)
            }
        },
        None => None,
    };
    Ok(Invocation::Run(Args { path, format, quiet, country_set, print_format }))
}

/// The line `line` as it is validated: without surrounding whitespace, and in
/// print format without any space either.
pub open spec fn normalize_spec(line: Seq<char>, print_format: bool) -> Seq<char> {
    let trimmed = trim_chars(line);
    if print_format && trimmed.contains(' ') {
        replace_char_spec(trimmed, ' ', ""@)
    } else {
        trimmed
    }
}

/// Normalize one input line: surrounding whitespace is always removed, and inner spaces
/// are removed as well when print format input was requested.
///
/// Borrowing is kept whenever nothing has to be removed, so the common electronic-format
/// case does not allocate.
pub fn normalize<'a>(line: &'a str, print_format: bool) -> (res: Cow<'a, str>)
    ensures
        res@ == normalize_spec(line@, print_format),
        res is Borrowed <==> !(print_format && trim_chars(line@).contains(' ')),
{
    let trimmed = trim(line);
    if print_format && contains_char(trimmed, ' ') {
        Cow::Owned(replace_char(trimmed, ' ', ""))
    } else {
        Cow::Borrowed(trimmed)
    }
}

/// A CSV field must be quoted when it holds a comma, a quote or a line break.
pub open spec fn needs_quoting(value: Seq<char>) -> bool {
    value.contains(',') || value.contains('"') || value.contains('\n') || value.contains('\r')
}

/// The CSV field holding `value`: quoted, with quotes doubled, when it needs it.
pub open spec fn csv_field_spec(value: Seq<char>) -> Seq<char> {
    if needs_quoting(value) {
        "\""@ + replace_char_spec(value, '"', "\"\""@) + "\""@
    } else {
        value
    }
}

/// Quote a CSV field only when it needs it, doubling any embedded quote.
pub fn csv_field(value: &str) -> (field: Cow<'_, str>)
    ensures
        field@ == csv_field_spec(value@),
        field is Borrowed <==> !needs_quoting(value@),
{
    if contains_char(value, ',') || contains_char(value, '"') || contains_char(value, '\n')
        || contains_char(value, '\r') {
        let mut quoted = String::from_str("\"");
        let escaped = replace_char(value, '"', "\"\"");
        quoted.append(escaped.as_str());
        quoted.append("\"");
        Cow::Owned(quoted)
    } else {
        Cow::Borrowed(value)
    }
}

/// The characters of the identifier at `start` to `end` of the IBAN `s`, if
/// it has one.
pub open spec fn identifier_chars(s: Seq<char>, start: Option<usize>, end: Option<usize>) -> Option<Seq<char>> {
    match identifier_span(start, end, encode_utf8(s).len() as int) {
        Some((from, to)) => Some(s.subrange(from, to)),
        None => None,
    }
}

/// An optional identifier, or `default` when there is none.
pub open spec fn or_default(id: Option<Seq<char>>, default: Seq<char>) -> Seq<char> {
    match id {
        Some(v) => v,
        None => default,
    }
}

/// The output line for the (already normalized) IBAN `iban`.
pub open spec fn format_line_spec(iban: Seq<char>, format: Format, country_set: CountrySet) -> Seq<char> {
    match spec_validate(encode_utf8(iban), country_set) {
        Ok(f) => {
            let bank = identifier_chars(iban, f.bank_id_pos_s, f.bank_id_pos_e);
            let branch = identifier_chars(iban, f.branch_id_pos_s, f.branch_id_pos_e);
            match format {
                Format::Text => iban + "\tvalid\t"@ + or_default(bank, "-"@) + "\t"@ + or_default(
                    branch,
                    "-"@,
                ),
                Format::Csv => csv_field_spec(iban) + ",valid,"@ + csv_field_spec(
                    or_default(bank, ""@),
                ) + ","@ + csv_field_spec(or_default(branch, ""@)) + ","@,
            }
        },
        Err(e) => match format {
            Format::Text => iban + "\tinvalid\t"@ + error_message(e),
            Format::Csv => csv_field_spec(iban) + ",invalid,,,"@ + csv_field_spec(error_message(e)),
        },
    }
}

/// The text held by a borrowed-or-owned string.
pub fn cow_as_str<'b, 'a: 'b>(c: &'b Cow<'a, str>) -> (s: &'b str)
    ensures
        s@ == c@,
{
    match c {
        Cow::Borrowed(b) => b,
        Cow::Owned(o) => o.as_str(),
    }
}

/// The characters of an identifier slice, or `default` when there is none.
pub fn identifier_or<'a>(id: Option<&'a str>, default: &'a str) -> (text: &'a str)
    ensures
        text@ == match id {
            Some(v) => v@,
            None => default@,
        },
{
    match id {
        Some(v) => v,
        None => default,
    }
}

/// Render one already normalized IBAN as an output line, without the trailing newline.
///
/// Valid IBANs report their bank and branch identifiers, using `-` (text) or an empty
/// field (csv) for the countries where the registry defines none. Invalid ones report
/// the reason from [`ValidationError`].
pub fn format_line(iban: &str, format: Format, country_set: CountrySet) -> (line: String)
    ensures
        line@ == format_line_spec(iban@, format, country_set),
{
    match Iban::new_with(iban, country_set) {
        Ok(parsed) => {
            match format {
                Format::Text => {
                    let mut line = String::from_str(iban);
                    line.append("\tvalid\t");
                    line.append(identifier_or(parsed.get_bank_id(), "-"));
                    line.append("\t");
                    line.append(identifier_or(parsed.get_branch_id(), "-"));
                    line
                },
                Format::Csv => {
                    let mut line = String::new();
                    line.append(cow_as_str(&csv_field(iban)));
                    line.append(",valid,");
                    line.append(cow_as_str(&csv_field(identifier_or(parsed.get_bank_id(), ""))));
                    line.append(",");
                    line.append(cow_as_str(&csv_field(identifier_or(parsed.get_branch_id(), ""))));
                    line.append(",");
                    line
                },
            }
        },
        Err(err) => {
            let reason = err.to_string();
            match format {
                Format::Text => {
                    let mut line = String::from_str(iban);
                    line.append("\tinvalid\t");
                    line.append(reason.as_str());
                    line
                },
                Format::Csv => {
                    let mut line = String::new();
                    line.append(cow_as_str(&csv_field(iban)));
                    line.append(",invalid,,,");
                    line.append(cow_as_str(&csv_field(reason.as_str())));
                    line
                },
            }
        },
    }
}

/// Exit code matching a [`Report`]: `0` when nothing was invalid, `1` otherwise.
pub fn exit_code(report: &Report) -> (code: i32)
    ensures
        code == if report.invalid == 0 {
            0i32
        } else {
            1i32
        },
{
    if report.invalid == 0 {
        0
    } else {
        1
    }
}

/// Why an input could not be read.
#[derive(Debug, Clone, Copy, PartialEq, Eq, Structural)]
pub enum InputError {
    /// A line of the input is not valid UTF-8.
    InvalidUtf8,
}

/// Index of the first newline of `b` at or after `start`, or the length of `b`.
pub open spec fn next_newline(b: Seq<u8>, start: int) -> int
    decreases b.len() - start,
{
    if start < 0 || start >= b.len() {
        b.len() as int
    } else if b[start] == 0x0a {
        start
    } else {
        next_newline(b, start + 1)
    }
}

/// The line of `b` from `start` to the newline at `end`, without that newline
/// and without a carriage return just before it.
pub open spec fn line_bytes(b: Seq<u8>, start: int, end: int) -> Seq<u8> {
    if end < b.len() && start < end && b[end - 1] == 0x0d {
        b.subrange(start, end - 1)
    } else {
        b.subrange(start, end)
    }
}

/// Where a run stands: the counts so far, the bytes written, and whether a
/// line could not be read.
pub struct RunState {
    pub report: Report,
    pub written: Seq<u8>,
    pub failed: bool,
}

/// The state before the first line: nothing counted, and the CSV header
/// written unless the run is quiet.
pub open spec fn run_start(args: Args) -> RunState {
    RunState {
        report: Report { total: 0, valid: 0, invalid: 0 },
        written: if !args.quiet && args.format == Format::Csv {
            encode_utf8(CSV_HEADER@) + encode_utf8("\n"@)
        } else {
            Seq::empty()
        },
        failed: false,
    }
}

/// The IBAN that the line `line` (valid UTF-8) holds, once normalized.
pub open spec fn line_candidate(args: Args, line: Seq<u8>) -> Seq<char> {
    normalize_spec(decode_utf8(line), args.print_format)
}

/// The counts after the line `line` (valid UTF-8): lines that are empty once
/// normalized are not counted.
pub open spec fn count_line(args: Args, report: Report, line: Seq<u8>) -> Report {
    let candidate = line_candidate(args, line);
    if candidate.len() == 0 {
        report
    } else {
        let ok = spec_validate(encode_utf8(candidate), args.country_set) is Ok;
        Report {
            total: (report.total + 1) as usize,
            valid: if ok {
                (report.valid + 1) as usize
            } else {
                report.valid
            },
            invalid: if ok {
                report.invalid
            } else {
                (report.invalid + 1) as usize
            },
        }
    }
}

/// The bytes written for the line `line` (valid UTF-8): its result line and
/// a newline, unless the run is quiet or the line is empty once normalized.
pub open spec fn line_output(args: Args, line: Seq<u8>) -> Seq<u8> {
    let candidate = line_candidate(args, line);
    if candidate.len() == 0 || args.quiet {
        Seq::empty()
    } else {
        encode_utf8(format_line_spec(candidate, args.format, args.country_set)) + encode_utf8(
            "\n"@,
        )
    }
}

/// The state after the line `line` (its bytes, without the newline).
pub open spec fn run_line(args: Args, st: RunState, line: Seq<u8>) -> RunState {
    if !valid_utf8(line) {
        RunState { failed: true, ..st }
    } else {
        RunState {
            report: count_line(args, st.report, line),
            written: st.written + line_output(args, line),
            failed: false,
        }
    }
}

/// The state after the lines of `b` from byte `start` on, starting from `st`;
/// reading stops at the first line that is not valid UTF-8.
pub open spec fn run_from(args: Args, b: Seq<u8>, start: int, st: RunState) -> RunState
    decreases b.len() + 1 - start,
{
    if start < 0 || start >= b.len() || st.failed {
        st
    } else {
        let end = next_newline(b, start);
        proof {
            lemma_next_newline(b, start);
        }
        run_from(args, b, end + 1, run_line(args, st, line_bytes(b, start, end)))
    }
}

/// The outcome of a whole run over the input `b`.
pub open spec fn run_spec(args: Args, b: Seq<u8>) -> RunState {
    run_from(args, b, 0, run_start(args))
}

/// The first newline at or after `start` is not before it and not past the end.
pub proof fn lemma_next_newline(b: Seq<u8>, start: int)
    requires
        0 <= start <= b.len(),
    ensures
        start <= next_newline(b, start) <= b.len(),
        next_newline(b, start) < b.len() ==> b[next_newline(b, start)] == 0x0a,
        forall|k: int| start <= k < next_newline(b, start) ==> b[k] != 0x0a,
    decreases b.len() - start,
{
    if start < b.len() && b[start] != 0x0a {
        lemma_next_newline(b, start + 1);
    }
}

/// Appends the UTF-8 bytes of `s` to `output`.
fn write_str(output: &mut Vec<u8>, s: &str)
    ensures
        final(output)@ == old(output)@ + encode_utf8(s@),
{
    let bytes = s.as_bytes();
    let mut i: usize = 0;
    while i < bytes.len()
        invariant
            bytes@ == encode_utf8(s@),
            i <= bytes@.len(),
            output@ == old(output)@ + bytes@.take(i as int),
        decreases bytes@.len() - i,
    {
        output.push(bytes[i]);
        i += 1;
        proof {
            assert(output@ =~= old(output)@ + bytes@.take(i as int));
        }
    }
    proof {
        assert(bytes@.take(i as int) =~= bytes@);
    }
}

/// Index of the first newline of `input` at or after `start`, or its length.
fn find_newline(input: &[u8], start: usize) -> (end: usize)
    requires
        start <= input@.len(),
    ensures
        end == next_newline(input@, start as int),
        start <= end <= input@.len(),
{
    let mut end = start;
    while end < input.len() && input[end] != 0x0a
        invariant
            start <= end <= input@.len(),
            next_newline(input@, start as int) == next_newline(input@, end as int),
        decreases input@.len() - end,
    {
        end += 1;
    }
    end
}

/// Check one line (its bytes, without the newline): count it in `report` and
/// write its result to `output`. Returns `false`, changing nothing, when the
/// line is not valid UTF-8.
fn process_line(args: &Args, raw: &[u8], report: &mut Report, output: &mut Vec<u8>) -> (read: bool)
    requires
        old(report).total < usize::MAX,
        old(report).valid + old(report).invalid == old(report).total,
    ensures
        read == valid_utf8(raw@),
        read ==> *final(report) == count_line(*args, *old(report), raw@) && final(output)@ == old(
            output,
        )@ + line_output(*args, raw@),
        !read ==> *final(report) == *old(report) && final(output)@ == old(output)@,
        final(report).valid + final(report).invalid == final(report).total,
{
    let line = match str_from_utf8(raw) {
        Some(line) => line,
        None => return false,
    };
    proof {
        encode_utf8_decode_utf8(line@);
    }
    let normalized = normalize(line, args.print_format);
    let candidate = cow_as_str(&normalized);
    if !candidate.is_empty() {
        let is_valid = Iban::new_with(candidate, args.country_set).is_ok();
        report.total += 1;
        if is_valid {
            report.valid += 1;
        } else {
            report.invalid += 1;
        }
        if !args.quiet {
            let rendered = format_line(candidate, args.format, args.country_set);
            write_str(output, rendered.as_str());
            write_str(output, "\n");
            proof {
                assert(final(output)@ =~= old(output)@ + line_output(*args, raw@));
            }
        }
    }
    true
}

/// Validate every line of `input`, writing the results to `output`.
///
/// Lines end at a newline, which may be preceded by a carriage return; the
/// last line needs none. Empty (or whitespace only) lines are skipped and are
/// not counted. A line that is not valid UTF-8 ends the run with an error,
/// after the results of the lines before it have been written.
pub fn run(args: &Args, input: &[u8], output: &mut Vec<u8>) -> (res: Result<Report, InputError>)
    ensures
        final(output)@ == old(output)@ + run_spec(*args, input@).written,
        match res {
            Ok(report) => !run_spec(*args, input@).failed && report == run_spec(*args, input@).report,
            Err(_) => run_spec(*args, input@).failed,
        },
{
    let ghost b = input@;
    let mut report = Report { total: 0, valid: 0, invalid: 0 };
    if !args.quiet && args.format == Format::Csv {
        write_str(output, CSV_HEADER);
        write_str(output, "\n");
    }
    let ghost mut written: Seq<u8> = run_start(*args).written;
    proof {
        assert(output@ =~= old(output)@ + written);
        assert(run_start(*args) == RunState { report, written, failed: false });
    }
    let len = input.len();
    let mut start: usize = 0;
    while start < len
        invariant
            b == input@,
            len == b.len(),
            start <= len,
            report.total <= start,
            report.valid + report.invalid == report.total,
            output@ == old(output)@ + written,
            run_spec(*args, b) == run_from(*args, b, start as int, RunState { report, written, failed: false }),
        decreases len - start,
    {
        let ghost st = RunState { report, written, failed: false };
        let end = find_newline(input, start);
        let line_end = if end < len && start < end && input[end - 1] == 0x0d {
            end - 1
        } else {
            end
        };
        let raw = slice_subrange(input, start, line_end);
        assert(raw@ == line_bytes(b, start as int, end as int));
        let ghost next = run_line(*args, st, raw@);
        assert(run_from(*args, b, start as int, st) == run_from(*args, b, end + 1, next));
        if !process_line(args, raw, &mut report, output) {
            assert(run_from(*args, b, end + 1, next) == next);
            return Err(InputError::InvalidUtf8);
        }
        proof {
            written = written + line_output(*args, raw@);
            assert(next == RunState { report, written, failed: false });
        }
        if end < len {
            start = end + 1;
        } else {
            assert(run_from(*args, b, end + 1, next) == next);
            assert(run_from(*args, b, len as int, next) == next);
            start = len;
        }
    }
    Ok(report)
}

} // verus!
