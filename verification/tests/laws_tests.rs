//! Concrete instances of the properties the library proves for all inputs.

use iban_validation_rs::cli::{
    format_line, normalize, parse_args, run, Args, Format, Invocation, Report, CSV_HEADER, USAGE,
};
use iban_validation_rs::c_api::{validate_numeric_bytes, view_spans};
use iban_validation_rs::{
    is_non_registry_country, validate_iban_str_print, validate_iban_str_with, CountrySet, Iban,
    NON_REGISTRY_COUNTRIES,
};

const INPUT: &str = "DE44500105175407324931\n\n  AL4721211009000000023569874Q \r\nDE44 5001 0517 5407 3249 31\nAO49012345678901234567890\n";

fn run_bytes(args: &Args, input: &str) -> (Report, String) {
    let mut out = Vec::new();
    let report = run(args, input.as_bytes(), &mut out).unwrap();
    (report, String::from_utf8(out).unwrap())
}

/// The error for arguments refused for `reason`.
fn with_usage(reason: &str) -> String {
    format!("{reason}\n\n{USAGE}")
}

#[test]
fn quiet_changes_only_the_output() {
    for format in [Format::Text, Format::Csv] {
        let loud = Args { format, ..Args::default() };
        let quiet = Args { format, quiet: true, ..Args::default() };
        let (loud_report, loud_out) = run_bytes(&loud, INPUT);
        let (quiet_report, quiet_out) = run_bytes(&quiet, INPUT);
        assert_eq!(loud_report, quiet_report);
        assert!(!loud_out.is_empty());
        assert!(quiet_out.is_empty());
    }
}

#[test]
fn counts_add_up_and_lines_match() {
    for format in [Format::Text, Format::Csv] {
        for print_format in [false, true] {
            let args = Args { format, print_format, ..Args::default() };
            let (report, out) = run_bytes(&args, INPUT);
            assert_eq!(report.valid + report.invalid, report.total);
            assert_eq!(report.total, 4);
            let header = if format == Format::Csv { 1 } else { 0 };
            assert_eq!(out.matches('\n').count(), report.total + header);
        }
    }
}

#[test]
fn normalizing_twice_changes_nothing() {
    for line in ["  DE44 5001 0517 5407 3249 31 \t", "", "   ", "\u{a0}A B\u{3000}", "AB"] {
        for print_format in [false, true] {
            let once = normalize(line, print_format).into_owned();
            let twice = normalize(&once, print_format).into_owned();
            assert_eq!(once, twice, "{line:?}");
        }
    }
}

#[test]
fn print_format_never_refuses_what_is_accepted_without_it() {
    for line in [" DE44500105175407324931 ", "DE44 5001 0517 5407 3249 31", "AL47 2121"] {
        let strict = normalize(line, false);
        let lenient = normalize(line, true);
        if Iban::new(&strict).is_ok() {
            assert!(Iban::new(&lenient).is_ok());
            assert_eq!(strict, lenient);
        }
    }
    assert_eq!(
        validate_iban_str_print("DE44 5001 0517 5407 3249 31"),
        Ok(true)
    );
}

#[test]
fn rendered_lines_hold_no_line_break() {
    for iban in ["DE44500105175407324931", "AL4721211009000000023569874Q", "x\u{7f}y", ""] {
        for format in [Format::Text, Format::Csv] {
            let line = format_line(iban, format, CountrySet::Registry);
            assert!(!line.contains('\n') && !line.contains('\r'), "{line:?}");
        }
    }
}

#[test]
fn csv_rows_have_the_header_arity_except_for_forbidden_check_digits() {
    let fields = CSV_HEADER.split(',').count();
    for iban in ["DE44500105175407324931", "AL4721211009000000023569874Q", "XX12", "A B", ""] {
        let row = format_line(iban, Format::Csv, CountrySet::Registry);
        assert_eq!(row.split(',').count(), fields, "{row}");
    }
    // The reason for forbidden check digits holds a comma, inside quotes.
    let row = format_line("DE00370400440532013000", Format::Csv, CountrySet::Registry);
    assert_eq!(row.split(',').count(), fields + 1);
}

#[test]
fn the_non_registry_list_and_lookup_agree() {
    for cc in NON_REGISTRY_COUNTRIES {
        assert!(is_non_registry_country(cc));
    }
    let mut found = 0;
    for c0 in b'A'..=b'Z' {
        for c1 in b'A'..=b'Z' {
            if is_non_registry_country([c0, c1]) {
                assert!(NON_REGISTRY_COUNTRIES.contains(&[c0, c1]));
                found += 1;
            }
        }
    }
    assert_eq!(found, NON_REGISTRY_COUNTRIES.len());
}

#[test]
fn identifier_positions_agree_across_interfaces() {
    for iban in ["GB82WEST12345698765432", "DE89370400440532013000", "IT60X0542811101000000123456"] {
        let parsed = Iban::new(iban).unwrap();
        let (_, numeric) = validate_numeric_bytes(iban.as_bytes());
        let numeric = numeric.unwrap();
        let (_, spans) = view_spans(iban.as_bytes());
        let spans = spans.unwrap();
        match parsed.iban_bank_id {
            Some(bank) => {
                assert_eq!(&iban[numeric.bank_s as usize..numeric.bank_e as usize], bank);
                let span = spans.bank_id.unwrap();
                assert_eq!(&iban[span.offset..span.offset + span.len], bank);
            }
            None => assert_eq!((numeric.bank_s, numeric.bank_e), (0, 0)),
        }
        match parsed.iban_branch_id {
            Some(branch) => {
                assert_eq!(&iban[numeric.branch_s as usize..numeric.branch_e as usize], branch);
                let span = spans.branch_id.unwrap();
                assert_eq!(&iban[span.offset..span.offset + span.len], branch);
            }
            None => assert!(spans.branch_id.is_none()),
        }
    }
}

#[test]
fn non_registry_countries_only_widen_acceptance() {
    for iban in ["DE89370400440532013000", "DE96370400440532013000", "AO49012345678901234567890"] {
        let registry = validate_iban_str_with(iban, CountrySet::Registry);
        let wider = validate_iban_str_with(iban, CountrySet::WithNonRegistry);
        if registry.is_ok() {
            assert_eq!(registry, wider);
        }
    }
}

#[test]
fn help_and_version_win_over_what_follows_only() {
    assert_eq!(parse_args(&["-q", "--help", "--nope"]), Ok(Invocation::Help));
    assert_eq!(parse_args(&["a.txt", "-V", "b.txt", "c.txt"]), Ok(Invocation::Version));
    assert_eq!(parse_args(&["--format", "csv", "--version", "--format"]), Ok(Invocation::Version));
    assert_eq!(parse_args(&["--nope", "--help"]), Err(with_usage("unknown option: --nope")));
    assert_eq!(parse_args(&["-x", "--version"]), Err(with_usage("unknown option: -x")));
}

#[test]
fn print_format_is_validation_without_spaces() {
    for s in ["DE44 5001 0517 5407 3249 31", " GB82 WEST 1234 5698 7654 32 ", "DE45 5001", "A B"] {
        let print = validate_iban_str_print(s);
        let electronic = validate_iban_str_with(&s.replace(' ', ""), CountrySet::Registry);
        assert_eq!(print.is_ok(), electronic.is_ok(), "{s}");
        if print.is_ok() {
            assert_eq!(print, electronic, "{s}");
        }
    }
}

#[test]
fn identifiers_are_read_through_getters_too() {
    let parsed = Iban::new("GB82WEST12345698765432").unwrap();
    assert_eq!(parsed.get_bank_id(), parsed.iban_bank_id);
    assert_eq!(parsed.get_branch_id(), Some("123456"));
}
