use catr::args::{parse_args, InfoRequest, ParsedArgs, UsageError};

fn run_config(args: &[&str]) -> catr::Config {
    let owned: Vec<String> = args.iter().map(|s| s.to_string()).collect();
    match parse_args(&owned) {
        Ok(ParsedArgs::Run(c)) => c,
        other => panic!("expected a configuration, got {:?}", other.is_ok()),
    }
}

fn parse(args: &[&str]) -> Result<ParsedArgs, UsageError> {
    let owned: Vec<String> = args.iter().map(|s| s.to_string()).collect();
    parse_args(&owned)
}

#[test]
fn no_arguments_defaults_to_stdin() {
    let c = run_config(&[]);
    assert_eq!(c.files, vec!["-".to_string()]);
    assert!(!c.number_lines);
    assert!(!c.number_nonblank_lines);
}

#[test]
fn dash_operand_is_stdin() {
    let c = run_config(&["-"]);
    assert_eq!(c.files, vec!["-".to_string()]);
}

#[test]
fn operands_kept_in_order_around_flags() {
    let c = run_config(&["a.txt", "-n", "b.txt"]);
    assert_eq!(c.files, vec!["a.txt".to_string(), "b.txt".to_string()]);
    assert!(c.number_lines);
    assert!(!c.number_nonblank_lines);
}

#[test]
fn long_flags_recognized() {
    let c = run_config(&["--number", "f"]);
    assert!(c.number_lines);
    let c = run_config(&["--number-nonblank", "f"]);
    assert!(c.number_nonblank_lines);
}

#[test]
fn conflicting_flags_rejected() {
    assert!(matches!(
        parse(&["-n", "-b"]),
        Err(UsageError::ConflictingFlags)
    ));
    assert!(matches!(
        parse(&["-b", "-n"]),
        Err(UsageError::ConflictingFlags)
    ));
    assert!(matches!(
        parse(&["--number", "--number-nonblank", "file"]),
        Err(UsageError::ConflictingFlags)
    ));
}

#[test]
fn unknown_option_rejected_and_carried() {
    match parse(&["-z", "x"]) {
        Err(UsageError::UnknownOption(u)) => assert_eq!(u, "-z"),
        _ => panic!("expected an unknown-option error"),
    }
}

#[test]
fn first_unknown_option_reported() {
    match parse(&["-q", "-z"]) {
        Err(UsageError::UnknownOption(u)) => assert_eq!(u, "-q"),
        _ => panic!("expected an unknown-option error"),
    }
}

#[test]
fn help_requested() {
    assert!(matches!(
        parse(&["-h"]),
        Ok(ParsedArgs::Info(InfoRequest::Help))
    ));
    assert!(matches!(
        parse(&["--help"]),
        Ok(ParsedArgs::Info(InfoRequest::Help))
    ));
}

#[test]
fn version_requested() {
    assert!(matches!(
        parse(&["-V"]),
        Ok(ParsedArgs::Info(InfoRequest::Version))
    ));
    assert!(matches!(
        parse(&["--version"]),
        Ok(ParsedArgs::Info(InfoRequest::Version))
    ));
}

#[test]
fn help_wins_over_errors() {
    assert!(matches!(
        parse(&["-z", "-h", "-n", "-b"]),
        Ok(ParsedArgs::Info(InfoRequest::Help))
    ));
}

#[test]
fn empty_argument_is_an_operand() {
    let c = run_config(&["", "-n"]);
    assert_eq!(c.files, vec!["".to_string()]);
    assert!(c.number_lines);
}
