//! The errors of the parser.

use vstd::prelude::*;
use crate::span::Span;
use crate::token::Punctuator;

verus! {

/// Why the parser stopped.
#[derive(Debug, Clone, Copy, PartialEq, Eq, Structural)]
pub enum ParserErrorKind {
    /// The lexer found a character that starts no token.
    InvalidToken,
    /// A string or a text was not closed before the end of the source.
    UnclosedLiteral,
    /// A token that cannot stand where it stands.
    UnexpectedToken,
    /// The source ended where something was still to come.
    UnexpectedEnd,
}

/// What could have followed where the parser stopped.
#[derive(Debug, Clone, Copy, PartialEq, Eq, Structural)]
pub enum Expected {
    /// A component or a component definition.
    Item,
    /// A component or the `}` that closes a list of children.
    ComponentOrClosingBracket,
    /// An identifier.
    Identifier,
    /// A property, a default value or the `]` that closes the properties.
    PropertiesContent,
    /// A property or the `]` that closes the properties.
    PropertyOrClosingBracket,
    /// A comma or the `]` that closes a list.
    CommaOrClosingBracket,
    /// An integer, a boolean, a string or an identifier.
    Value,
    /// The name of a type.
    Type,
    /// A property declaration.
    PropertyDefinition,
    /// A segment of a string.
    StringSegment,
    /// A segment of a text.
    TextSegment,
    /// The quote that closes a string.
    ClosingQuote,
    /// The parenthesis that closes a text.
    ClosingParenthesis,
    /// One punctuator.
    Punctuator(Punctuator),
}

/// An error of the parser: what it is, what could have followed, and where.
#[derive(Debug, Clone, Copy, PartialEq, Eq, Structural)]
pub struct ParserError {
    pub kind: ParserErrorKind,
    pub expected: Expected,
    pub span: Span,
}

/// The errors of one run of the parser. The parser stops at the first error,
/// so a failed run reports exactly one.
#[derive(Debug, Clone, PartialEq, Eq)]
pub struct MultiParserError {
    pub related: Vec<ParserError>,
}

/// The message of a kind of error.
pub open spec fn kind_text(kind: ParserErrorKind) -> Seq<char> {
    match kind {
        ParserErrorKind::InvalidToken => "Invalid token"@,
        ParserErrorKind::UnclosedLiteral => "Unclosed literal"@,
        ParserErrorKind::UnexpectedToken => "Unexpected token"@,
        ParserErrorKind::UnexpectedEnd => "Unexpected end of input"@,
    }
}

impl ParserError {
    /// A short message that names the kind of the error.
    pub fn label(&self) -> (r: &'static str)
        ensures
            r@ == kind_text(self.kind),
    {
        match self.kind {
            ParserErrorKind::InvalidToken => "Invalid token",
            ParserErrorKind::UnclosedLiteral => "Unclosed literal",
            ParserErrorKind::UnexpectedToken => "Unexpected token",
            ParserErrorKind::UnexpectedEnd => "Unexpected end of input",
        }
    }
}

impl MultiParserError {
    /// The report of a run that stopped at `error`.
    pub fn single(error: ParserError) -> (r: MultiParserError)
        ensures
            r.related@ == seq![error],
    {
        let mut related: Vec<ParserError> = Vec::new();
        related.push(error);
        MultiParserError { related }
    }
}

} // verus!
