//! The application's error values and the translation of a command-line
//! parse failure into one of them.
//!
//! A parse failure classified as a value-validation failure, whose context
//! carries both the offending argument's name and the rejected value as
//! plain strings, becomes `ValidationError` with the name sentence-cased and
//! the value untouched; a value-validation failure missing either string
//! becomes `NoValidationName`; every other failure is wrapped whole in
//! `MatchError`.

use vstd::prelude::*;
use crate::casing::sentence_cased;
use crate::casing::to_sentence_case;

verus! {

/// Declares the I/O error type carried by `ExecutionError::IoError`.
#[verifier::external_type_specification]
#[verifier::external_body]
pub struct ExIoError(std::io::Error);

/// A parse failure as the parser handed it over, held whole and untouched.
/// The one field is public: the boundary that receives a `clap::Error`
/// wraps it here itself, and a reader of a kept failure takes it back out.
#[verifier::external_body]
pub struct ParseFailure {
    pub error: clap::Error,
}

/// One failure category of the application.
pub enum ExecutionError {
    /// Wraps a lower-level I/O failure unchanged.
    IoError(std::io::Error),
    /// A value-validation failure arrived without the expected context.
    NoValidationName,
    /// Wraps, unchanged, any parse failure that is not a value-validation
    /// failure.
    MatchError(ParseFailure),
    /// An expected child output stream was absent.
    NoStdoutOrStderr,
    /// A named argument's value failed validation, with a human-readable
    /// argument label and the rejected value.
    ValidationError { name: String, message: String },
    /// An error reported through the GUI layer, as plain text.
    GuiError(String),
}

/// The views of an optional string.
pub open spec fn option_text(o: Option<String>) -> Option<Seq<char>> {
    match o {
        Some(s) => Some(s@),
        None => None,
    }
}

/// What a value-validation failure translates to: both context strings
/// present gives `ValidationError` holding the sentence-cased name and the
/// byte-for-byte message; a missing one gives `NoValidationName`, never
/// partially populated data.
pub open spec fn validation_outcome(
    arg: Option<Seq<char>>,
    value: Option<Seq<char>>,
    r: ExecutionError,
) -> bool {
    match (arg, value) {
        (Some(a), Some(v)) => {
            &&& r matches ExecutionError::ValidationError { name, message }
            &&& name@ == sentence_cased(a)
            &&& message@ == v
        },
        _ => r == ExecutionError::NoValidationName,
    }
}

/// What a parse failure translates to, given its kind classification, the
/// two context strings read off it, and the failure value itself: a
/// value-validation failure follows `validation_outcome`; any other kind is
/// wrapped unchanged in `MatchError`.
pub open spec fn translation_outcome(
    value_validation: bool,
    arg: Option<Seq<char>>,
    value: Option<Seq<char>>,
    original: ParseFailure,
    r: ExecutionError,
) -> bool {
    if value_validation {
        validation_outcome(arg, value, r)
    } else {
        r == ExecutionError::MatchError(original)
    }
}

/// Which context field of a parse error to read.
enum ContextField {
    InvalidArg,
    InvalidValue,
}

/// Whether a kept parse failure's kind classification, a value stored in it
/// and read off it alone, is the value-validation kind.
pub uninterp spec fn spec_is_value_validation(f: ParseFailure) -> bool;

/// The plain string stored in a kept parse failure's diagnostic context
/// under the invalid-argument field (when `invalid_arg` is true) or the
/// invalid-value field (otherwise); nothing when the field is absent or does
/// not hold a plain string.
pub uninterp spec fn spec_string_context(f: ParseFailure, invalid_arg: bool) -> Option<Seq<char>>;

/// Relies on `clap::Error::kind`: it returns the error's kind
/// classification, a value stored in the failure and read off it alone, here
/// compared against the value-validation kind.
#[verifier::external_body]
fn kind_is_value_validation(f: &ParseFailure) -> (r: bool)
    ensures
        r == spec_is_value_validation(*f),
{
    matches!(f.error.kind(), clap::error::ErrorKind::ValueValidation)
}

/// Relies on `clap::Error::get`: it looks up one piece of the error's
/// diagnostic context, a value stored in the failure and read off it alone.
/// The result is the looked-up value when it is a plain string, and nothing
/// when the field is absent or holds any other shape.
#[verifier::external_body]
fn get_string_context(f: &ParseFailure, which: ContextField) -> (r: Option<String>)
    ensures
        option_text(r) == spec_string_context(*f, which is InvalidArg),
{
    let kind = match which {
        ContextField::InvalidArg => clap::error::ContextKind::InvalidArg,
        ContextField::InvalidValue => clap::error::ContextKind::InvalidValue,
    };
    match f.error.get(kind) {
        Some(clap::error::ContextValue::String(s)) => Some(s.clone()),
        _ => None,
    }
}

impl ExecutionError {
    /// Builds the error value that a parse failure maps to, from the facts
    /// read off it: whether its kind is value validation, and its two
    /// context strings. Total: every combination of inputs yields exactly
    /// one error value, as `translation_outcome` states.
    pub fn from_error_parts(
        err: ParseFailure,
        value_validation: bool,
        invalid_arg: Option<String>,
        invalid_value: Option<String>,
    ) -> (r: ExecutionError)
        ensures
            translation_outcome(
                value_validation,
                option_text(invalid_arg),
                option_text(invalid_value),
                err,
                r,
            ),
    {
        if value_validation {
            match (invalid_arg, invalid_value) {
                (Some(arg), Some(value)) => ExecutionError::ValidationError {
                    name: to_sentence_case(arg.as_str()),
                    message: value,
                },
                _ => ExecutionError::NoValidationName,
            }
        } else {
            ExecutionError::MatchError(err)
        }
    }

    /// Translates a parse failure into the application's error value: the
    /// kind classification and the two context strings stored in the failure
    /// decide the variant, exactly as `translation_outcome` states.
    pub fn from_parse_error(err: ParseFailure) -> (r: ExecutionError)
        ensures
            translation_outcome(
                spec_is_value_validation(err),
                spec_string_context(err, true),
                spec_string_context(err, false),
                err,
                r,
            ),
    {
        let vv = kind_is_value_validation(&err);
        let arg = get_string_context(&err, ContextField::InvalidArg);
        let value = get_string_context(&err, ContextField::InvalidValue);
        Self::from_error_parts(err, vv, arg, value)
    }

    /// Wraps a lower-level I/O failure unchanged.
    pub fn from_io_error(err: std::io::Error) -> (r: ExecutionError)
        ensures
            r == ExecutionError::IoError(err),
    {
        ExecutionError::IoError(err)
    }

    /// Wraps owned text, unchanged, as a GUI-layer error.
    pub fn from_text(text: String) -> (r: ExecutionError)
        ensures
            r == ExecutionError::GuiError(text),
    {
        ExecutionError::GuiError(text)
    }

    /// Wraps borrowed text, copied byte for byte, as a GUI-layer error.
    pub fn from_str_text(text: &str) -> (r: ExecutionError)
        ensures
            r matches ExecutionError::GuiError(t) && t@ == text@,
    {
        ExecutionError::GuiError(text.to_owned())
    }

    /// True of exactly the `IoError` variant.
    pub fn is_io_error(&self) -> (r: bool)
        ensures
            r == (*self is IoError),
    {
        matches!(self, ExecutionError::IoError(_))
    }

    /// True of exactly the `NoValidationName` variant.
    pub fn is_no_validation_name(&self) -> (r: bool)
        ensures
            r == (*self is NoValidationName),
    {
        matches!(self, ExecutionError::NoValidationName)
    }

    /// True of exactly the `MatchError` variant.
    pub fn is_match_error(&self) -> (r: bool)
        ensures
            r == (*self is MatchError),
    {
        matches!(self, ExecutionError::MatchError(_))
    }

    /// True of exactly the `NoStdoutOrStderr` variant.
    pub fn is_no_stdout_or_stderr(&self) -> (r: bool)
        ensures
            r == (*self is NoStdoutOrStderr),
    {
        matches!(self, ExecutionError::NoStdoutOrStderr)
    }

    /// True of exactly the `ValidationError` variant.
    pub fn is_validation_error(&self) -> (r: bool)
        ensures
            r == (*self is ValidationError),
    {
        matches!(self, ExecutionError::ValidationError { .. })
    }

    /// True of exactly the `GuiError` variant.
    pub fn is_gui_error(&self) -> (r: bool)
        ensures
            r == (*self is GuiError),
    {
        matches!(self, ExecutionError::GuiError(_))
    }

    /// The argument label of a `ValidationError`, and nothing otherwise.
    pub fn validation_name(&self) -> (r: Option<String>)
        ensures
            match *self {
                ExecutionError::ValidationError { name, .. } => r == Some(name),
                _ => r is None,
            },
    {
        match self {
            ExecutionError::ValidationError { name, .. } => Some(name.clone()),
            _ => None,
        }
    }

    /// The rejected value of a `ValidationError`, and nothing otherwise.
    pub fn validation_message(&self) -> (r: Option<String>)
        ensures
            match *self {
                ExecutionError::ValidationError { message, .. } => r == Some(message),
                _ => r is None,
            },
    {
        match self {
            ExecutionError::ValidationError { message, .. } => Some(message.clone()),
            _ => None,
        }
    }

    /// The text of a `GuiError`, and nothing otherwise.
    pub fn gui_message(&self) -> (r: Option<String>)
        ensures
            match *self {
                ExecutionError::GuiError(text) => r == Some(text),
                _ => r is None,
            },
    {
        match self {
            ExecutionError::GuiError(text) => Some(text.clone()),
            _ => None,
        }
    }

    /// The kept I/O failure of an `IoError`, and nothing otherwise.
    pub fn io_payload(&self) -> (r: Option<&std::io::Error>)
        ensures
            match *self {
                ExecutionError::IoError(e) => r matches Some(g) && *g == e,
                _ => r is None,
            },
    {
        match self {
            ExecutionError::IoError(e) => Some(e),
            _ => None,
        }
    }

    /// The kept parse failure of a `MatchError`, and nothing otherwise.
    pub fn match_payload(&self) -> (r: Option<&ParseFailure>)
        ensures
            match *self {
                ExecutionError::MatchError(f) => r matches Some(g) && *g == f,
                _ => r is None,
            },
    {
        match self {
            ExecutionError::MatchError(f) => Some(f),
            _ => None,
        }
    }
}

} // verus!
