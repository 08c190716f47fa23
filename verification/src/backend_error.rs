//! The errors of the HTML backend.

use vstd::prelude::*;
use crate::span::Span;

verus! {

/// An error of the HTML backend.
#[derive(Debug, Clone, PartialEq, Eq)]
pub enum BackendError {
    /// A property that a component needs is missing.
    RequiredDefaultPropertyMissing(RequiredDefaultPropertyMissingError),
    /// A component that needs a text has none.
    TextMissing(TextMissingError),
    /// A value has another type than the one that is needed.
    TypeMismatch(TypeMismatchError),
    /// The component is not built in.
    Unimplemented,
    /// The properties of a component contradict each other or are out of
    /// range.
    InvalidProperty,
}

/// The default property of a component, which can be given by name too, is
/// missing.
#[derive(Debug, Clone, PartialEq, Eq)]
pub struct RequiredDefaultPropertyMissingError {
    /// The name of the property.
    pub name: String,
    /// The component.
    pub span: Span,
}

/// A component that needs a text has none.
#[derive(Debug, Clone, Copy, PartialEq, Eq, Structural)]
pub struct TextMissingError {
    /// The component.
    pub span: Span,
}

/// A value has another type than the one that is needed.
#[derive(Debug, Clone, PartialEq, Eq)]
pub struct TypeMismatchError {
    /// The name of the type that is needed.
    pub expected: &'static str,
    /// The name of the type of the value.
    pub got: &'static str,
    /// The value.
    pub span: Span,
}

/// The mathematical value of a [`BackendError`].
pub enum BackendFailure {
    RequiredDefaultPropertyMissing { name: Seq<char>, span: Span },
    TextMissing(TextMissingError),
    TypeMismatch { expected: Seq<char>, got: Seq<char>, span: Span },
    Unimplemented,
    InvalidProperty,
}

impl View for BackendError {
    type V = BackendFailure;

    open spec fn view(&self) -> BackendFailure {
        match *self {
            BackendError::RequiredDefaultPropertyMissing(e) => {
                BackendFailure::RequiredDefaultPropertyMissing { name: e.name@, span: e.span }
            },
            BackendError::TextMissing(e) => BackendFailure::TextMissing(e),
            BackendError::TypeMismatch(e) => BackendFailure::TypeMismatch {
                expected: e.expected@,
                got: e.got@,
                span: e.span,
            },
            BackendError::Unimplemented => BackendFailure::Unimplemented,
            BackendError::InvalidProperty => BackendFailure::InvalidProperty,
        }
    }
}

} // verus!
