//! One example IBAN for every registry country, validated through the
//! command line read loop, in electronic and in print format.

use iban_validation_rs::cli::{run, Args, Format};

/// One IBAN for each country of the registry, with a BBAN of the country's
/// structure and the check digits that make it pass the checksum.
const EXAMPLES: &[&str] = &[
    "AD1773159260K3M9P2X7K3M9",
    "AE287315926048731592604",
    "AL6473159260K3M9P2X7K3M9P2X7",
    "AT147315926048731592",
    "AZ34QWERP2X7K3M9P2X7K3M9P2X7",
    "BA627315926048731592",
    "BE55731592604873",
    "BG98QWER926048M9P2X7K3",
    "BH95QWERP2X7K3M9P2X7K3",
    "BI8873159260487315926048731",
    "BR6573159260487315926048731BK",
    "BY21K3M99260K3M9P2X7K3M9P2X7",
    "CH72731592X7K3M9P2X7K",
    "CR23731592604873159260",
    "CY0773159260K3M9P2X7K3M9P2X7",
    "CZ9573159260487315926048",
    "DE53731592604873159260",
    "DJ6773159260487315926048731",
    "DK0473159260487315",
    "DO70K3M992604873159260487315",
    "EE237315926048731592",
    "EG217315926048731592604873159",
    "ES9873159260487315926048",
    "FI8973159260487315",
    "FK88QW159260487315",
    "FO7173159260487315",
    "FR157315926048M9P2X7K3M9P31",
    "GB47QWER92604873159260",
    "GE71QW1592604873159260",
    "GI38QWERP2X7K3M9P2X7K3M",
    "GL7173159260487315",
    "GR4873159267K3M9P2X7K3M9P2X",
    "GT45K3M9P2X7K3M9P2X7K3M9P2X7",
    "HN40QWER92604873159260487315",
    "HR5073159260487315926",
    "HU83731592604873159260487315",
    "IE20QWER92604873159260",
    "IL327315926048731592604",
    "IQ40QWER926048731592604",
    "IS637315926048731592604873",
    "IT50Q31592604879P2X7K3M9P2X",
    "JO49QWER9260K3M9P2X7K3M9P2X7K3",
    "KW17QWERP2X7K3M9P2X7K3M9P2X7K3",
    "KZ977319P2X7K3M9P2X7",
    "LB397315P2X7K3M9P2X7K3M9P2X7",
    "LC25QWERP2X7K3M9P2X7K3M9P2X7K3M9",
    "LI85731592X7K3M9P2X7K",
    "LT127315926048731592",
    "LU067319P2X7K3M9P2X7",
    "LV91QWERP2X7K3M9P2X7K",
    "LY69731592604873159260487",
    "MC947315926048M9P2X7K3M9P31",
    "MD98K3M9P2X7K3M9P2X7K3M9",
    "ME69731592604873159260",
    "MK077319P2X7K3M9P59",
    "MN217315926048731592",
    "MR5973159260487315926048731",
    "MT12QWER926043M9P2X7K3M9P2X7K3M",
    "MU56QWER9260487315926048731BNM",
    "NI98QWER92604873159260487315",
    "NL74QWER9260487315",
    "NO6073159260487",
    "OM947319P2X7K3M9P2X7K3M",
    "PK77QWERP2X7K3M9P2X7K3M9",
    "PL38731592604873159260487315",
    "PS30QWERP2X7K3M9P2X7K3M9P2X7K",
    "PT48731592604873159260487",
    "QA75QWERP2X7K3M9P2X7K3M9P2X7K",
    "RO47QWERP2X7K3M9P2X7K3M9",
    "RS79731592604873159260",
    "RU7373159260487315X7K3M9P2X7K3M9P",
    "SA0773M9P2X7K3M9P2X7K3M9",
    "SC45QWER92604873159260487315NMQ",
    "SD8473159260487315",
    "SE1473159260487315926048",
    "SI88731592604873159",
    "SK9373159260487315926048",
    "SM78Q31592604879P2X7K3M9P2X",
    "SO307315926048731592604",
    "ST21731592604873159260487",
    "SV14QWER92604873159260487315",
    "TL307315926048731592604",
    "TN7573159260487315926048",
    "TR71731592X7K3M9P2X7K3M9P2",
    "UA20731592X7K3M9P2X7K3M9P2X7K",
    "VA97731592604873159260",
    "VG17QWER9260487315926048",
    "XK287315926048731592",
    "YE41QWER9260K3M9P2X7K3M9P2X7K3"
,
];

fn args(format: Format, print_format: bool) -> Args {
    Args { format, print_format, ..Args::default() }
}

fn run_str(args: &Args, input: &str) -> String {
    let mut out: Vec<u8> = Vec::new();
    run(args, input.as_bytes(), &mut out).expect("in-memory run cannot fail");
    String::from_utf8(out).expect("output is utf-8")
}

#[test]
fn all_registry_examples_validate_through_the_cli() {
    let ibans: Vec<&str> = EXAMPLES.iter().map(|l| l.trim()).filter(|l| !l.is_empty()).collect();
    assert!(ibans.len() > 50, "expected the full example list, got {}", ibans.len());

    let input = ibans.join("\n");

    let mut out: Vec<u8> = Vec::new();
    let report =
        run(&args(Format::Text, false), input.as_bytes(), &mut out).expect("in-memory run cannot fail");
    let text = String::from_utf8(out).expect("output is utf-8");
    assert_eq!(
        report.invalid,
        0,
        "some example IBANs did not validate:\n{}",
        text.lines().filter(|l| l.contains("\tinvalid\t")).collect::<Vec<_>>().join("\n")
    );
    assert_eq!(report.total, ibans.len());

    let csv = run_str(&args(Format::Csv, false), &input);
    assert_eq!(csv.lines().count(), ibans.len() + 1);
}

/// The same list in print format: grouping the characters in fours must not
/// change any verdict.
#[test]
fn registry_examples_validate_in_print_format() {
    let spaced: Vec<String> = EXAMPLES
        .iter()
        .map(|l| l.trim())
        .filter(|l| !l.is_empty())
        .map(|iban| {
            iban.as_bytes()
                .chunks(4)
                .map(|c| std::str::from_utf8(c).expect("ascii chunk").to_string())
                .collect::<Vec<_>>()
                .join(" ")
        })
        .collect();

    let mut out: Vec<u8> = Vec::new();
    let report = run(&args(Format::Text, true), spaced.join("\n").as_bytes(), &mut out)
        .expect("in-memory run cannot fail");
    assert_eq!(report.invalid, 0);
    assert_eq!(report.total, spaced.len());
}
