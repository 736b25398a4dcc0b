//! The command line front end: argument parsing, line normalization, output
//! rendering and the `run` loop over in-memory input.

use std::borrow::Cow;

use iban_validation_rs::cli::{
    csv_field, exit_code, format_line, normalize, parse_args, run, version_text, Args, Format,
    InputError, Invocation, Report, CSV_HEADER, USAGE, USAGE_EXIT_CODE,
};
use iban_validation_rs::{get_version, CountrySet};

const VALID_DE: &str = "DE44500105175407324931";
const VALID_AL: &str = "AL47212110090000000235698741";
/// Registry country, but the mod97 check fails.
const INVALID: &str = "AL4721211009000000023569874Q";
/// Community-sourced country, only accepted with `--non-registry`.
const NON_REGISTRY: &str = "AO49012345678901234567890";

fn run_args(args: &[&str]) -> Result<Invocation, String> {
    parse_args(args)
}

fn run_str(args: &Args, input: &str) -> (Report, String) {
    let mut out: Vec<u8> = Vec::new();
    let report = run(args, input.as_bytes(), &mut out).expect("in-memory run cannot fail");
    (report, String::from_utf8(out).expect("output is utf-8"))
}

fn text_args() -> Args {
    Args::default()
}

/// The error for arguments refused for `reason`.
fn with_usage(reason: &str) -> String {
    format!("{reason}\n\n{USAGE}")
}

#[test]
fn no_arguments_reads_stdin_as_text() {
    assert_eq!(
        run_args(&[]),
        Ok(Invocation::Run(Args {
            path: None,
            format: Format::Text,
            quiet: false,
            country_set: CountrySet::Registry,
            print_format: false,
        }))
    );
}

#[test]
fn dash_is_stdin() {
    let Ok(Invocation::Run(args)) = run_args(&["-"]) else {
        panic!("expected a run invocation");
    };
    assert_eq!(args.path, None);
}

#[test]
fn positional_is_the_file_to_read() {
    let Ok(Invocation::Run(args)) = run_args(&["ibans.txt"]) else {
        panic!("expected a run invocation");
    };
    assert_eq!(args.path.as_deref(), Some("ibans.txt"));
}

#[test]
fn flags_are_recognised_in_both_spellings() {
    for flag in ["-q", "--quiet"] {
        let Ok(Invocation::Run(args)) = run_args(&[flag]) else {
            panic!("expected a run invocation");
        };
        assert!(args.quiet);
    }
    for flag in ["-h", "--help"] {
        assert_eq!(run_args(&[flag]), Ok(Invocation::Help));
    }
    for flag in ["-V", "--version"] {
        assert_eq!(run_args(&[flag]), Ok(Invocation::Version));
    }
}

#[test]
fn format_accepts_separate_and_joined_values() {
    for spelling in [vec!["-f", "csv"], vec!["--format", "csv"], vec!["--format=csv"]] {
        let Ok(Invocation::Run(args)) = parse_args(&spelling) else {
            panic!("expected a run invocation");
        };
        assert_eq!(args.format, Format::Csv);
    }
}

#[test]
fn opt_in_flags_are_off_by_default() {
    let Ok(Invocation::Run(args)) = run_args(&["-"]) else {
        panic!("expected a run invocation");
    };
    assert_eq!(args.country_set, CountrySet::Registry);
    assert!(!args.print_format);

    let Ok(Invocation::Run(args)) = run_args(&["--non-registry", "--print-format"]) else {
        panic!("expected a run invocation");
    };
    assert_eq!(args.country_set, CountrySet::WithNonRegistry);
    assert!(args.print_format);
}

#[test]
fn bad_arguments_are_rejected() {
    assert!(run_args(&["--nope"]).is_err());
    assert!(run_args(&["--format"]).is_err());
    assert!(run_args(&["--format", "yaml"]).is_err());
    assert!(run_args(&["a.txt", "b.txt"]).is_err());
    for bad in [&["--nope"][..], &["--format"], &["--format", "yaml"], &["a.txt", "b.txt"]] {
        let Err(message) = run_args(bad) else {
            panic!("expected an error");
        };
        assert!(message.ends_with(USAGE), "{message}");
    }
}

#[test]
fn normalize_only_allocates_when_it_must() {
    assert!(matches!(
        normalize("  DE44500105175407324931  ", false),
        Cow::Borrowed("DE44500105175407324931")
    ));
    assert!(matches!(
        normalize("DE44 5001 0517 5407 3249 31", false),
        Cow::Borrowed("DE44 5001 0517 5407 3249 31")
    ));
    assert_eq!(
        normalize(" DE44 5001 0517 5407 3249 31 ", true),
        "DE44500105175407324931"
    );
}

#[test]
fn csv_fields_are_quoted_only_when_needed() {
    assert_eq!(csv_field("DE44"), "DE44");
    assert_eq!(csv_field("a,b"), "\"a,b\"");
    assert_eq!(csv_field("a\"b"), "\"a\"\"b\"");
}

#[test]
fn exit_code_follows_the_invalid_count() {
    assert_eq!(exit_code(&Report::default()), 0);
    assert_eq!(exit_code(&Report { total: 2, valid: 2, invalid: 0 }), 0);
    assert_eq!(exit_code(&Report { total: 2, valid: 1, invalid: 1 }), 1);
}

#[test]
fn version_text_names_the_registry() {
    let text = version_text();
    assert!(text.starts_with("iban_validation_cli "));
    assert!(text.contains(get_version()));
    assert!(text.contains("iban_registry_v"));
}

#[test]
fn valid_iban_reports_bank_and_branch() {
    let (report, out) = run_str(&text_args(), VALID_AL);
    assert_eq!(report, Report { total: 1, valid: 1, invalid: 0 });
    // AL defines both a bank and a branch identifier.
    assert_eq!(out, format!("{VALID_AL}\tvalid\t212\t11009\n"));
}

#[test]
fn missing_branch_identifier_is_rendered_as_a_dash() {
    let (_, out) = run_str(&text_args(), VALID_DE);
    assert_eq!(out, format!("{VALID_DE}\tvalid\t50010517\t-\n"));
}

#[test]
fn invalid_iban_reports_the_reason() {
    let (report, out) = run_str(&text_args(), INVALID);
    assert_eq!(report, Report { total: 1, valid: 0, invalid: 1 });
    assert!(out.starts_with(&format!("{INVALID}\tinvalid\t")), "{out}");
    assert!(out.contains("mod97"), "{out}");
}

#[test]
fn empty_and_whitespace_lines_are_skipped() {
    let (report, out) = run_str(&text_args(), &format!("\n  \n{VALID_DE}\n\n"));
    assert_eq!(report, Report { total: 1, valid: 1, invalid: 0 });
    assert_eq!(out.lines().count(), 1);
}

#[test]
fn surrounding_whitespace_is_trimmed_without_print_format() {
    let (report, _) = run_str(&text_args(), &format!("  {VALID_DE}\t\n"));
    assert_eq!(report.valid, 1);
}

#[test]
fn inner_spaces_need_print_format() {
    let spaced = "DE44 5001 0517 5407 3249 31";

    let (report, _) = run_str(&text_args(), spaced);
    assert_eq!(report.invalid, 1);

    let args = Args { print_format: true, ..Args::default() };
    let (report, out) = run_str(&args, spaced);
    assert_eq!(report.valid, 1);
    // The normalized (electronic) form is what gets echoed back.
    assert!(out.starts_with(VALID_DE), "{out}");
}

#[test]
fn non_registry_countries_are_opt_in() {
    let (report, _) = run_str(&text_args(), NON_REGISTRY);
    assert_eq!(report.invalid, 1);

    let args = Args { country_set: CountrySet::WithNonRegistry, ..Args::default() };
    let (report, _) = run_str(&args, NON_REGISTRY);
    assert_eq!(report.valid, 1);
}

#[test]
fn csv_output_has_a_header_and_one_row_per_iban() {
    let args = Args { format: Format::Csv, ..Args::default() };
    let (report, out) = run_str(&args, &format!("{VALID_DE}\n{INVALID}\n"));
    assert_eq!(report.total, 2);

    let mut lines = out.lines();
    assert_eq!(lines.next(), Some(CSV_HEADER));
    assert_eq!(lines.next(), Some(format!("{VALID_DE},valid,50010517,,").as_str()));
    let invalid_row = lines.next().expect("an invalid row");
    assert!(invalid_row.starts_with(&format!("{INVALID},invalid,,,")), "{invalid_row}");
    assert_eq!(lines.next(), None);

    // Every row keeps the header's field count.
    let fields = CSV_HEADER.split(',').count();
    for line in out.lines() {
        assert_eq!(line.split(',').count(), fields, "{line}");
    }
}

#[test]
fn quiet_suppresses_output_but_still_counts() {
    let args = Args { quiet: true, ..Args::default() };
    let (report, out) = run_str(&args, &format!("{VALID_DE}\n{INVALID}\n"));
    assert_eq!(report, Report { total: 2, valid: 1, invalid: 1 });
    assert!(out.is_empty(), "{out}");

    // Not even the csv header is written when quiet.
    let args = Args { quiet: true, format: Format::Csv, ..Args::default() };
    let (_, out) = run_str(&args, VALID_DE);
    assert!(out.is_empty(), "{out}");
}

#[test]
fn input_without_a_trailing_newline_is_still_read() {
    let (report, _) = run_str(&text_args(), VALID_DE);
    assert_eq!(report.total, 1);
}

#[test]
fn empty_input_is_a_clean_run() {
    let (report, out) = run_str(&text_args(), "");
    assert_eq!(report, Report::default());
    assert!(out.is_empty());
}

#[test]
fn carriage_returns_before_newlines_are_dropped() {
    let (report, out) = run_str(&text_args(), &format!("{VALID_DE}\r\n{VALID_AL}\r\n"));
    assert_eq!(report, Report { total: 2, valid: 2, invalid: 0 });
    assert_eq!(
        out,
        format!("{VALID_DE}\tvalid\t50010517\t-\n{VALID_AL}\tvalid\t212\t11009\n")
    );
}

#[test]
fn invalid_utf8_stops_the_run_after_the_earlier_lines() {
    let mut input = format!("{VALID_DE}\n").into_bytes();
    input.extend_from_slice(&[0xff, 0xfe, b'\n']);
    input.extend_from_slice(VALID_AL.as_bytes());
    let mut out: Vec<u8> = Vec::new();
    assert_eq!(run(&text_args(), &input, &mut out), Err(InputError::InvalidUtf8));
    assert_eq!(String::from_utf8(out).unwrap(), format!("{VALID_DE}\tvalid\t50010517\t-\n"));
}

#[test]
fn output_is_appended_to_what_the_buffer_holds() {
    let mut out: Vec<u8> = b"previous\n".to_vec();
    let report = run(&text_args(), VALID_DE.as_bytes(), &mut out).unwrap();
    assert_eq!(report.valid, 1);
    assert_eq!(
        String::from_utf8(out).unwrap(),
        format!("previous\n{VALID_DE}\tvalid\t50010517\t-\n")
    );
}

#[test]
fn csv_header_is_written_even_for_empty_input() {
    let args = Args { format: Format::Csv, ..Args::default() };
    let (report, out) = run_str(&args, "");
    assert_eq!(report, Report::default());
    assert_eq!(out, format!("{CSV_HEADER}\n"));
}

#[test]
fn format_line_renders_each_case() {
    assert_eq!(
        format_line(VALID_AL, Format::Text, CountrySet::Registry),
        format!("{VALID_AL}\tvalid\t212\t11009")
    );
    assert_eq!(
        format_line(VALID_AL, Format::Csv, CountrySet::Registry),
        format!("{VALID_AL},valid,212,11009,")
    );
    assert_eq!(
        format_line(INVALID, Format::Text, CountrySet::Registry),
        format!("{INVALID}\tinvalid\tThe calculated mod97 for the iban indicates an incorrect Iban")
    );
    // A reason holding commas is quoted in CSV.
    assert_eq!(
        format_line("DE00370400440532013000", Format::Csv, CountrySet::Registry),
        "DE00370400440532013000,invalid,,,\"The checksum is invalid it can not be 00, 01 or 99\""
    );
    assert_eq!(
        format_line(NON_REGISTRY, Format::Text, CountrySet::WithNonRegistry),
        format!("{NON_REGISTRY}\tvalid\t-\t-")
    );
}

#[test]
fn parse_errors_give_the_reason() {
    assert_eq!(run_args(&["--nope"]), Err(with_usage("unknown option: --nope")));
    assert_eq!(run_args(&["-f"]), Err(with_usage("missing value for -f")));
    assert_eq!(
        run_args(&["--format=yaml"]),
        Err(with_usage("unknown format: yaml (expected text or csv)"))
    );
    assert_eq!(
        run_args(&["a.txt", "b.txt"]),
        Err(with_usage("unexpected extra argument: b.txt (already reading a.txt)"))
    );
    // Help wins over anything that follows it.
    assert_eq!(run_args(&["--help", "--nope"]), Ok(Invocation::Help));
    // A lone dash is standard input, a later path is then an extra argument.
    assert!(run_args(&["-", "a.txt"]).is_err());
}

#[test]
fn format_names_and_usage() {
    assert_eq!(Format::default(), Format::Text);
    assert_eq!(Format::Text.to_string(), "text");
    assert_eq!(Format::Csv.to_string(), "csv");
    assert!(USAGE.contains("USAGE:"));
    assert_eq!(USAGE_EXIT_CODE, 2);
    assert_eq!(
        version_text(),
        "iban_validation_cli 0.1.29 (iban_validation_rs 0.1.29, registry iban_registry_v101.txt)"
    );
}
