use clap::error::{ContextKind, ContextValue, ErrorKind};
use gui_errors::error::{ExecutionError, ParseFailure};

fn failure_with(
    kind: ErrorKind,
    arg: Option<ContextValue>,
    value: Option<ContextValue>,
) -> ParseFailure {
    let mut error = clap::Error::raw(kind, "parse failure");
    if let Some(a) = arg {
        let _ = error.insert(ContextKind::InvalidArg, a);
    }
    if let Some(v) = value {
        let _ = error.insert(ContextKind::InvalidValue, v);
    }
    ParseFailure { error }
}

#[test]
fn validation_with_both_contexts() {
    let failure = failure_with(
        ErrorKind::ValueValidation,
        Some(ContextValue::String("output-dir".to_owned())),
        Some(ContextValue::String("/no/such/path".to_owned())),
    );
    let translated = ExecutionError::from_parse_error(failure);
    assert!(translated.is_validation_error());
    assert_eq!(translated.validation_name(), Some("Output dir".to_owned()));
    assert_eq!(
        translated.validation_message(),
        Some("/no/such/path".to_owned())
    );
}

#[test]
fn validation_without_contexts() {
    let failure = failure_with(ErrorKind::ValueValidation, None, None);
    let translated = ExecutionError::from_parse_error(failure);
    assert!(translated.is_no_validation_name());
}

#[test]
fn validation_missing_value_context() {
    let failure = failure_with(
        ErrorKind::ValueValidation,
        Some(ContextValue::String("output-dir".to_owned())),
        None,
    );
    let translated = ExecutionError::from_parse_error(failure);
    assert!(translated.is_no_validation_name());
}

#[test]
fn validation_missing_arg_context() {
    let failure = failure_with(
        ErrorKind::ValueValidation,
        None,
        Some(ContextValue::String("/no/such/path".to_owned())),
    );
    let translated = ExecutionError::from_parse_error(failure);
    assert!(translated.is_no_validation_name());
}

#[test]
fn validation_with_non_string_context() {
    let failure = failure_with(
        ErrorKind::ValueValidation,
        Some(ContextValue::Strings(vec!["output-dir".to_owned()])),
        Some(ContextValue::String("/no/such/path".to_owned())),
    );
    let translated = ExecutionError::from_parse_error(failure);
    assert!(translated.is_no_validation_name());
}

#[test]
fn other_kind_is_wrapped_whole() {
    let failure = failure_with(
        ErrorKind::UnknownArgument,
        Some(ContextValue::String("--outptu-dir".to_owned())),
        None,
    );
    let translated = ExecutionError::from_parse_error(failure);
    assert!(translated.is_match_error());
    let kept = translated.match_payload().unwrap();
    assert_eq!(kept.error.kind(), ErrorKind::UnknownArgument);
    assert_eq!(
        kept.error.get(ContextKind::InvalidArg),
        Some(&ContextValue::String("--outptu-dir".to_owned()))
    );
}

#[test]
fn parts_with_both_strings() {
    let failure = failure_with(ErrorKind::ValueValidation, None, None);
    let translated = ExecutionError::from_error_parts(
        failure,
        true,
        Some("output-dir".to_owned()),
        Some("/no/such/path".to_owned()),
    );
    assert!(translated.is_validation_error());
    assert_eq!(translated.validation_name(), Some("Output dir".to_owned()));
    assert_eq!(
        translated.validation_message(),
        Some("/no/such/path".to_owned())
    );
}

#[test]
fn parts_without_validation_kind() {
    let failure = failure_with(ErrorKind::DisplayHelp, None, None);
    let translated = ExecutionError::from_error_parts(
        failure,
        false,
        Some("output-dir".to_owned()),
        Some("/no/such/path".to_owned()),
    );
    assert!(translated.is_match_error());
    let kept = translated.match_payload().unwrap();
    assert_eq!(kept.error.kind(), ErrorKind::DisplayHelp);
}

#[test]
fn real_parse_failure_is_translated() {
    let cmd = clap::Command::new("app").arg(
        clap::Arg::new("retry")
            .long("retry")
            .value_parser(clap::builder::BoolishValueParser::new()),
    );
    let error = cmd
        .try_get_matches_from(["app", "--retry", "xyz"])
        .unwrap_err();
    assert_eq!(error.kind(), ErrorKind::ValueValidation);
    let translated = ExecutionError::from_parse_error(ParseFailure { error });
    assert!(translated.is_validation_error());
    assert_eq!(translated.validation_message(), Some("xyz".to_owned()));
}

#[test]
fn gui_error_from_owned_text() {
    let translated = ExecutionError::from_text("window closed".to_owned());
    assert!(translated.is_gui_error());
    assert_eq!(translated.gui_message(), Some("window closed".to_owned()));
}

#[test]
fn gui_error_from_borrowed_text() {
    let translated = ExecutionError::from_str_text("window closed");
    assert!(translated.is_gui_error());
    assert_eq!(translated.gui_message(), Some("window closed".to_owned()));
}

#[test]
fn io_error_is_wrapped() {
    let inner = std::io::Error::new(std::io::ErrorKind::NotFound, "missing");
    let translated = ExecutionError::from_io_error(inner);
    assert!(translated.is_io_error());
    assert!(!translated.is_validation_error());
    let kept = translated.io_payload().unwrap();
    assert_eq!(kept.kind(), std::io::ErrorKind::NotFound);
}

#[test]
fn unit_variants_are_distinguished() {
    assert!(ExecutionError::NoStdoutOrStderr.is_no_stdout_or_stderr());
    assert!(!ExecutionError::NoStdoutOrStderr.is_no_validation_name());
    assert!(ExecutionError::NoValidationName.is_no_validation_name());
    assert_eq!(ExecutionError::NoValidationName.validation_name(), None);
    assert_eq!(ExecutionError::NoValidationName.gui_message(), None);
}
