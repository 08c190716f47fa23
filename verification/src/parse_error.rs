//! The errors of the front end and of the whole pipeline.

use vstd::prelude::*;
use crate::error::IrGeneratorError;
use crate::parser_error::MultiParserError;
use crate::validator_error::ValidatorError;

verus! {

/// An error of the front end: of the parser or of the validator.
#[derive(Debug, Clone, PartialEq, Eq)]
pub enum ParseError {
    /// The source text is no module.
    ParserError(MultiParserError),
    /// The module breaks a rule of the language.
    ValidatorError(ValidatorError),
}

/// An error of the pipeline from source text to the intermediate
/// representation.
#[derive(Debug, Clone, PartialEq, Eq)]
pub enum MarkermlError {
    /// An error of the front end.
    Parser(ParseError),
    /// An error of the lowering.
    IrGenerator(IrGeneratorError),
}

} // verus!
