use parsing::ParsingError;
use parsing::args::Cli;

fn args(parts: &[&str]) -> Vec<String> {
    parts.iter().map(|s| s.to_string()).collect()
}

#[test]
fn parse_arg_accepts_the_four_flags() {
    let cli = Cli::parse_arg(&args(&[
        "--input",
        "in.xml",
        "--in-format",
        "camt053",
        "--output",
        "out.mt940",
        "--out-format",
        "mt940",
    ]))
    .unwrap();
    assert_eq!(cli.input, "in.xml");
    assert_eq!(cli.in_format, "camt053");
    assert_eq!(cli.output, "out.mt940");
    assert_eq!(cli.out_format, "mt940");
}

#[test]
fn parse_arg_accepts_any_flag_order() {
    let cli = Cli::parse_arg(&args(&[
        "--out-format",
        "csv",
        "--input",
        "data",
        "--output",
        "o.csv",
        "--in-format",
        "stdout",
    ]))
    .unwrap();
    assert_eq!(cli.in_format, "stdout");
    assert_eq!(cli.out_format, "csv");
}

#[test]
fn parse_arg_rejects_missing_flag() {
    let r = Cli::parse_arg(&args(&[
        "--input",
        "in.xml",
        "--in-format",
        "camt053",
        "--output",
        "out.mt940",
    ]));
    assert!(matches!(r, Err(ParsingError::ConversionError(_))));
}

#[test]
fn parse_arg_rejects_unknown_flag() {
    let r = Cli::parse_arg(&args(&[
        "--input",
        "in.xml",
        "--verbose",
        "yes",
        "--in-format",
        "camt053",
        "--output",
        "o",
        "--out-format",
        "mt940",
    ]));
    assert!(r.is_err());
}

#[test]
fn parse_arg_rejects_flag_without_value() {
    let r = Cli::parse_arg(&args(&[
        "--input",
        "in.xml",
        "--in-format",
        "camt053",
        "--output",
        "o",
        "--out-format",
    ]));
    assert!(r.is_err());
    assert!(Cli::parse_arg(&args(&[])).is_err());
}

#[test]
fn error_messages_carry_kind_and_detail() {
    assert_eq!(
        ParsingError::ParseDateError("Invalid date format: x".to_string()).message(),
        "Date parsing error: Invalid date format: x"
    );
    assert_eq!(
        ParsingError::MissingField("No opening balance found".to_string()).message(),
        "Missing field: No opening balance found"
    );
    assert_eq!(ParsingError::InvalidAmount("abc".to_string()).message(), "Invalid amount: abc");
    assert_eq!(
        ParsingError::InvalidIndicator("x".to_string()).message(),
        "Invalid indicator: x"
    );
    assert_eq!(ParsingError::XmlError("bad tag".to_string()).message(), "XML error: bad tag");
    assert_eq!(ParsingError::IoError("closed".to_string()).message(), "IO error: closed");
    assert_eq!(
        ParsingError::ConversionError("odd".to_string()).message(),
        "Conversion error: odd"
    );
}
