//! A compiler for MarkerML, a small declarative markup language of
//! components with properties, children and interpolated text.
//!
//! Source text is turned into tokens by the [`lexer`], tokens into a syntax
//! tree by the [`parser`], the tree is checked by the [`validator`] and
//! lowered to an intermediate representation by the [`ir_generator`]. The
//! [`html_generator`] makes a tree of HTML of the intermediate
//! representation.
//!
//! What each stage computes is defined on sequences of characters and tokens
//! and on the values of trees, in the modules whose names end in `_model`;
//! the stages are proved to compute just that. The modules whose names end
//! in `_laws` prove what holds of every text and every tree.

use vstd::prelude::*;

pub mod span;
pub mod token;
pub mod chars;
pub mod lexer_model;
pub mod lexer;
pub mod lexer_laws;
pub mod ast;
pub mod ast_span_helpers;
pub mod parser_error;
pub mod parser_model;
pub mod parser;
pub mod parser_laws;
pub mod names;
pub mod validator_error;
pub mod validator_model;
pub mod validator;
pub mod validator_laws;
pub mod ir;
pub mod error;
pub mod ir_model;
pub mod ir_generator;
pub mod ir_laws;
pub mod pipeline_laws;
pub mod parse_error;
pub mod backend_error;
pub mod html;
pub mod html_model;
pub mod html_generator;

pub use crate::ir_generator::generate_ir;
pub use crate::parse_error::{MarkermlError, ParseError};
pub use crate::span::Span;

use crate::error::LoweringError;
use crate::ir_generator::lowered;
use crate::ir_model::lower_module;
use crate::lexer::MAX_SOURCE_LENGTH;
use crate::lexer_model::{end_span, lex_tokens};
use crate::parser_error::ParserError;
use crate::parser_model::parse_module;
use crate::validator::Validator;
use crate::validator_error::Violation;
use crate::validator_model::module_violation;

verus! {

/// What the front end makes of a source text: the error of the parser, the
/// first violation that the validator finds, or the module.
pub enum FrontEnd {
    /// The source text is no module.
    Unparsed(ParserError),
    /// The module breaks a rule of the language.
    Invalid(Violation),
    /// The module.
    Module(ast::ModuleView<Span>),
}

/// What the front end makes of a source text.
pub open spec fn front_end(code: Seq<char>) -> FrontEnd {
    match parse_module(lex_tokens(code), end_span(code)) {
        Err(e) => FrontEnd::Unparsed(e),
        Ok(module) => match module_violation(module) {
            Some(v) => FrontEnd::Invalid(v),
            None => FrontEnd::Module(module),
        },
    }
}

/// The mathematical value of the outcome of [`parse`].
pub open spec fn parse_view(result: Result<ast::Module<Span>, ParseError>) -> FrontEnd {
    match result {
        Ok(module) => FrontEnd::Module(module@),
        Err(ParseError::ParserError(errors)) => FrontEnd::Unparsed(errors.related@[0]),
        Err(ParseError::ValidatorError(e)) => FrontEnd::Invalid(e@),
    }
}

/// What the pipeline makes of a source text: an error of the front end, an
/// error of the lowering, or the intermediate representation.
pub enum Compiled {
    /// The source text is no module.
    Unparsed(ParserError),
    /// The module breaks a rule of the language.
    Invalid(Violation),
    /// The module cannot be lowered.
    Unlowered(LoweringError),
    /// The intermediate representation of the module.
    Module(ir::ModuleView<Span>),
}

/// What the pipeline makes of a source text.
pub open spec fn compiled(code: Seq<char>) -> Compiled {
    match front_end(code) {
        FrontEnd::Unparsed(e) => Compiled::Unparsed(e),
        FrontEnd::Invalid(v) => Compiled::Invalid(v),
        FrontEnd::Module(module) => match lower_module(module) {
            Err(e) => Compiled::Unlowered(e),
            Ok(lowered_module) => Compiled::Module(lowered_module),
        },
    }
}

/// The mathematical value of the outcome of [`compile`].
pub open spec fn compile_view(result: Result<ir::Module<Span>, MarkermlError>) -> Compiled {
    match result {
        Ok(module) => Compiled::Module(module@),
        Err(MarkermlError::Parser(ParseError::ParserError(errors))) => Compiled::Unparsed(
            errors.related@[0],
        ),
        Err(MarkermlError::Parser(ParseError::ValidatorError(e))) => Compiled::Invalid(e@),
        Err(MarkermlError::IrGenerator(e)) => Compiled::Unlowered(e@),
    }
}

/// Parses and validates a source text. The result is the module, the error
/// at which the parser stopped, or the first violation that the validator
/// found.
pub fn parse(code: &str) -> (r: Result<ast::Module<Span>, ParseError>)
    requires
        code@.len() <= MAX_SOURCE_LENGTH,
    ensures
        parse_view(r) == front_end(code@),
        r matches Err(ParseError::ParserError(errors)) ==> errors.related@.len() == 1,
{
    let module = match parser::parse(code) {
        Ok(module) => module,
        Err(errors) => {
            return Err(ParseError::ParserError(errors));
        },
    };
    match Validator::new(&module).validate() {
        Ok(_) => Ok(module),
        Err(e) => Err(ParseError::ValidatorError(e)),
    }
}

/// Runs the whole pipeline on a source text: lexer, parser, validator and
/// lowering. The result is the intermediate representation, or the error of
/// the first stage that failed.
pub fn compile(code: &str) -> (r: Result<ir::Module<Span>, MarkermlError>)
    requires
        code@.len() <= MAX_SOURCE_LENGTH,
    ensures
        compile_view(r) == compiled(code@),
        r matches Err(MarkermlError::Parser(ParseError::ParserError(errors)))
            ==> errors.related@.len() == 1,
        r matches Ok(module) ==> module@.well_formed(),
{
    let module = match parse(code) {
        Ok(module) => module,
        Err(e) => {
            return Err(MarkermlError::Parser(e));
        },
    };
    match generate_ir(module) {
        Ok(lowered_module) => Ok(lowered_module),
        Err(e) => Err(MarkermlError::IrGenerator(e)),
    }
}

} // verus!
