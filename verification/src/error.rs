//! The ways a configuration document is rejected. Every failure is terminal:
//! no partial configuration is ever produced.

use vstd::prelude::*;

verus! {

/// Why a document could not be decoded.
#[derive(Debug, PartialEq)]
pub enum ConfigError {
    /// The text is not well-formed TOML; carries the TOML reader's message.
    Syntax { message: String },
    /// A required field is absent.
    MissingField { field: String },
    /// A field is present but of the wrong shape.
    TypeMismatch { field: String, expected: String, actual: String },
    /// `auth_type` holds a token outside the recognized set.
    UnknownVariant { field: String, value: String, allowed: String },
}

/// The mathematical image of a [`ConfigError`]: the same variants over
/// character sequences.
pub enum ErrView {
    Syntax { message: Seq<char> },
    MissingField { field: Seq<char> },
    TypeMismatch { field: Seq<char>, expected: Seq<char>, actual: Seq<char> },
    UnknownVariant { field: Seq<char>, value: Seq<char>, allowed: Seq<char> },
}

impl View for ConfigError {
    type V = ErrView;

    open spec fn view(&self) -> ErrView {
        match self {
            ConfigError::Syntax { message } => ErrView::Syntax { message: message@ },
            ConfigError::MissingField { field } => ErrView::MissingField { field: field@ },
            ConfigError::TypeMismatch { field, expected, actual } => ErrView::TypeMismatch {
                field: field@,
                expected: expected@,
                actual: actual@,
            },
            ConfigError::UnknownVariant { field, value, allowed } => ErrView::UnknownVariant {
                field: field@,
                value: value@,
                allowed: allowed@,
            },
        }
    }
}

} // verus!
