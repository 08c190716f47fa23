//! The parser: from tokens to the syntax tree.
//!
//! The parser stops at the first error. A failed run reports that error,
//! with what could have followed and the span where it stopped.

use vstd::prelude::*;
use crate::ast::{
    lemma_component_children_view, option_view, views, Component, ComponentChildren,
    ComponentDefinition, Identifier, InterpolationSegment, InterpolationSegmentKind, Module,
    ModuleItem, NamedPropertyDefinition, Properties, PropertiesDefinition, Property,
    PropertyDefinition, PropertyDefinitionKind, PropertyKind, StringValue, Text,
    TextPropertyDefinition, Type, TypeKind, Value, ValueKind,
};
use crate::lexer::{Lexer, MAX_SOURCE_LENGTH};
use crate::lexer_model::{end_span, lex_tokens, InterpolationKind};
use crate::parser_error::{Expected, MultiParserError, ParserError, ParserErrorKind};
use crate::parser_model::{
    optional_properties_at, optional_properties_definition_at, optional_text_at, children_rest,
    component_at, component_definition_at, component_name_at, component_starts, definitions_rest,
    expect_punctuator, failure, identifier_at, identifier_starts, interpolation_at,
    is_empty_literal, item_at, items_from, keyword_at, kept, literal_at, named_definition_at,
    optional_children_at, parse_module, properties_at, properties_definition_at, properties_rest,
    property_at, property_definition_at, punctuator_at, segments_at, segments_tail, span_of,
    span_or_end, string_at, text_at, text_starts, type_at, value_at, value_starts, Parsed,
};
use crate::span::Span;
use crate::token;
use crate::token::{tokens_view, Keyword, Punctuator, TokenKind, TokenView};

verus! {

/// The parser of the language, with the tokens that it reads.
pub struct MarkermlParser {
    tokens: Vec<(TokenKind, Span)>,
    eof: Span,
}

/// The mathematical value of what an executable function read.
pub open spec fn parsed_view<T: View>(result: Result<(T, usize), ParserError>) -> Parsed<T::V> {
    match result {
        Ok((tree, next)) => Ok((tree@, next as int)),
        Err(e) => Err(e),
    }
}

/// The mathematical value of the outcome of a run of the parser.
pub open spec fn outcome_view(result: Result<Module<Span>, MultiParserError>) -> Result<
    crate::ast::ModuleView<Span>,
    ParserError,
> {
    match result {
        Ok(module) => Ok(module@),
        Err(errors) => Err(errors.related@[0]),
    }
}

impl MarkermlParser {
    /// The tokens that the parser reads.
    #[verifier::opaque]
    pub closed spec fn model(&self) -> Seq<TokenView> {
        tokens_view(self.tokens@)
    }

    /// The span of the end of the input.
    pub closed spec fn end(&self) -> Span {
        self.eof
    }

    /// The number of tokens.
    pub closed spec fn count(&self) -> int {
        self.tokens.len() as int
    }

    /// Creates a parser for the given tokens and the span of the end of the
    /// input.
    pub fn new(tokens: Vec<(TokenKind, Span)>, eof: Span) -> (r: MarkermlParser)
        ensures
            r.model() == tokens_view(tokens@),
            r.end() == eof,
    {
        reveal(MarkermlParser::model);
        MarkermlParser { tokens, eof }
    }

    proof fn lemma_model_len(&self)
        ensures
            self.model().len() == self.count(),
    {
        reveal(MarkermlParser::model);
    }

    fn token(&self, i: usize) -> (r: &(TokenKind, Span))
        requires
            i < self.count(),
        ensures
            self.model()[i as int] == (r.0@, r.1),
            self.model().len() == self.count(),
    {
        reveal(MarkermlParser::model);
        &self.tokens[i]
    }

    fn size(&self) -> (r: usize)
        ensures
            r == self.count(),
            self.model().len() == self.count(),
    {
        reveal(MarkermlParser::model);
        self.tokens.len()
    }

    fn is_punctuator(&self, i: usize, p: Punctuator) -> (r: bool)
        ensures
            r == punctuator_at(self.model(), i as int, p),
            r ==> i < self.count(),
    {
        if i < self.size() {
            match &self.token(i).0 {
                TokenKind::Punctuator(q) => *q == p,
                _ => false,
            }
        } else {
            false
        }
    }

    fn is_keyword(&self, i: usize, k: Keyword) -> (r: bool)
        ensures
            r == keyword_at(self.model(), i as int, k),
            r ==> i < self.count(),
    {
        if i < self.size() {
            match &self.token(i).0 {
                TokenKind::Keyword(q) => *q == k,
                _ => false,
            }
        } else {
            false
        }
    }

    fn starts_identifier(&self, i: usize) -> (r: bool)
        ensures
            r == identifier_starts(self.model(), i as int),
            r ==> i < self.count(),
    {
        if i < self.size() {
            match &self.token(i).0 {
                TokenKind::Identifier(_) => true,
                _ => false,
            }
        } else {
            false
        }
    }

    fn starts_text(&self, i: usize) -> (r: bool)
        ensures
            r == text_starts(self.model(), i as int),
            r ==> i < self.count(),
    {
        if i < self.size() {
            match &self.token(i).0 {
                TokenKind::Text(_) => true,
                _ => false,
            }
        } else {
            false
        }
    }

    fn starts_value(&self, i: usize) -> (r: bool)
        ensures
            r == value_starts(self.model(), i as int),
            r ==> i < self.count(),
    {
        if i < self.size() {
            match &self.token(i).0 {
                TokenKind::IntegerLiteral(_) => true,
                TokenKind::BooleanLiteral(_) => true,
                TokenKind::StringLiteral(_) => true,
                TokenKind::Identifier(_) => true,
                _ => false,
            }
        } else {
            false
        }
    }

    fn starts_component(&self, i: usize) -> (r: bool)
        ensures
            r == component_starts(self.model(), i as int),
            r ==> i < self.count(),
    {
        self.starts_identifier(i) || self.is_punctuator(i, Punctuator::At) || self.is_punctuator(
            i,
            Punctuator::Hash,
        )
    }

    fn span_at(&self, i: usize) -> (r: Span)
        ensures
            r == span_or_end(self.model(), self.end(), i as int),
    {
        if i < self.size() {
            self.token(i).1
        } else {
            self.eof
        }
    }

    fn cover(&self, start: usize, end: usize) -> (r: Span)
        requires
            start < end <= self.count(),
        ensures
            r == span_of(self.model(), start as int, end as int),
    {
        let mut span = self.token(start).1;
        let mut k: usize = start + 1;
        while k < end
            invariant
                start < k <= end <= self.count(),
                span == span_of(self.model(), start as int, k as int),
            decreases end - k,
        {
            span = span.union(self.token(k).1);
            k += 1;
        }
        span
    }

    fn fail(&self, i: usize, expected: Expected) -> (r: ParserError)
        ensures
            r == failure(self.model(), self.end(), i as int, expected),
    {
        let kind = if i < self.size() {
            match &self.token(i).0 {
                TokenKind::Invalid => ParserErrorKind::InvalidToken,
                TokenKind::StringLiteral(literal) => if literal.is_closed {
                    ParserErrorKind::UnexpectedToken
                } else {
                    ParserErrorKind::UnclosedLiteral
                },
                TokenKind::Text(literal) => if literal.is_closed {
                    ParserErrorKind::UnexpectedToken
                } else {
                    ParserErrorKind::UnclosedLiteral
                },
                _ => ParserErrorKind::UnexpectedToken,
            }
        } else {
            ParserErrorKind::UnexpectedEnd
        };
        ParserError { kind, expected, span: self.span_at(i) }
    }

    fn parse_identifier(&self, i: usize) -> (r: Result<(Identifier<Span>, usize), ParserError>)
        ensures
            parsed_view(r) == identifier_at(self.model(), self.end(), i as int),
            r is Ok ==> r->Ok_0.1 == i + 1 && i < self.count(),
    {
        reveal(identifier_at);
        if i < self.size() {
            match &self.token(i).0 {
                TokenKind::Identifier(identifier) => {
                    return Ok(
                        (Identifier { span: self.token(i).1, name: identifier.0.clone() }, i + 1),
                    );
                },
                _ => {},
            }
        }
        Err(self.fail(i, Expected::Identifier))
    }

    fn parse_punctuator(&self, i: usize, p: Punctuator) -> (r: Result<usize, ParserError>)
        ensures
            match r {
                Ok(next) => expect_punctuator(self.model(), self.end(), i as int, p) == Ok::<
                    int,
                    ParserError,
                >(next as int) && next == i + 1 && next <= self.count(),
                Err(e) => expect_punctuator(self.model(), self.end(), i as int, p) == Err::<
                    int,
                    ParserError,
                >(e),
            },
    {
        reveal(expect_punctuator);
        if self.is_punctuator(i, p) {
            Ok(i + 1)
        } else {
            Err(self.fail(i, Expected::Punctuator(p)))
        }
    }

    fn parse_literal(&self, i: usize, kind: InterpolationKind) -> (r: Result<
        InterpolationSegment<Span>,
        ParserError,
    >)
        ensures
            match r {
                Ok(segment) => literal_at(self.model(), self.end(), i as int, kind) == Ok::<
                    crate::ast::InterpolationSegmentView<Span>,
                    ParserError,
                >(segment@) && i < self.count(),
                Err(e) => literal_at(self.model(), self.end(), i as int, kind) == Err::<
                    crate::ast::InterpolationSegmentView<Span>,
                    ParserError,
                >(e),
            },
    {
        reveal(literal_at);
        if i < self.size() {
            match (kind, &self.token(i).0) {
                (InterpolationKind::String, TokenKind::StringLiteral(literal)) => {
                    if literal.is_closed {
                        return Ok(
                            InterpolationSegment {
                                span: self.token(i).1,
                                kind: InterpolationSegmentKind::Literal(literal.content.clone()),
                            },
                        );
                    } else {
                        return Err(self.fail(i, Expected::ClosingQuote));
                    }
                },
                (InterpolationKind::Text, TokenKind::Text(literal)) => {
                    if literal.is_closed {
                        return Ok(
                            InterpolationSegment {
                                span: self.token(i).1,
                                kind: InterpolationSegmentKind::Literal(literal.content.clone()),
                            },
                        );
                    } else {
                        return Err(self.fail(i, Expected::ClosingParenthesis));
                    }
                },
                _ => {},
            }
        }
        match kind {
            InterpolationKind::String => Err(self.fail(i, Expected::StringSegment)),
            InterpolationKind::Text => Err(self.fail(i, Expected::TextSegment)),
        }
    }

    fn variable_interpolation(&self, i: usize) -> (r: Result<
        (InterpolationSegment<Span>, usize),
        ParserError,
    >)
        ensures
            parsed_view(r) == interpolation_at(self.model(), self.end(), i as int),
            r is Ok ==> r->Ok_0.1 == i + 4 && i + 4 <= self.count(),
    {
        reveal(interpolation_at);
        let after_dollar = match self.parse_punctuator(i, Punctuator::Dollar) {
            Ok(next) => next,
            Err(e) => {
                return Err(e);
            },
        };
        let after_bracket = match self.parse_punctuator(
            after_dollar,
            Punctuator::LeftCurlyBracket,
        ) {
            Ok(next) => next,
            Err(e) => {
                return Err(e);
            },
        };
        let (name, after_name) = match self.parse_identifier(after_bracket) {
            Ok(found) => found,
            Err(e) => {
                return Err(e);
            },
        };
        let next = match self.parse_punctuator(after_name, Punctuator::RightCurlyBracket) {
            Ok(next) => next,
            Err(e) => {
                return Err(e);
            },
        };
        Ok(
            (
                InterpolationSegment {
                    span: self.cover(i, next),
                    kind: InterpolationSegmentKind::Variable(name),
                },
                next,
            ),
        )
    }

    fn parse_segments(&self, i: usize, kind: InterpolationKind) -> (r: Result<
        (Vec<InterpolationSegment<Span>>, usize),
        ParserError,
    >)
        ensures
            match r {
                Ok((segments, next)) => segments_at(self.model(), self.end(), i as int, kind)
                    == Ok::<(Seq<crate::ast::InterpolationSegmentView<Span>>, int), ParserError>(
                    (views(segments@), next as int),
                ) && i < next <= self.count(),
                Err(e) => segments_at(self.model(), self.end(), i as int, kind) == Err::<
                    (Seq<crate::ast::InterpolationSegmentView<Span>>, int),
                    ParserError,
                >(e),
            },
    {
        reveal(segments_at);
        reveal(segments_tail);
        let ghost model = self.model();
        let ghost eof = self.end();
        let first = match self.parse_literal(i, kind) {
            Ok(segment) => segment,
            Err(e) => {
                return Err(e);
            },
        };
        let mut segments: Vec<InterpolationSegment<Span>> = Vec::new();
        if !self.is_punctuator(i + 1, Punctuator::Dollar) {
            segments.push(first);
            assert(views(segments@) =~= seq![first@]);
            return Ok((segments, i + 1));
        }
        if !is_empty(&first) {
            segments.push(first);
        }
        assert(views(segments@) =~= kept(first@));
        let mut at: usize = i + 1;
        loop
            invariant
                model == self.model(),
                eof == self.end(),
                i < at < self.count(),
                punctuator_at(model, at as int, Punctuator::Dollar),
                segments_at(model, eof, i as int, kind) == segments_tail(
                    model,
                    eof,
                    at as int,
                    kind,
                    views(segments@),
                ),
            decreases self.count() - at,
        {
            reveal(segments_at);
            reveal(segments_tail);
            let ghost acc = views(segments@);
            let (variable, after) = match self.variable_interpolation(at) {
                Ok(found) => found,
                Err(e) => {
                    return Err(e);
                },
            };
            let literal = match self.parse_literal(after, kind) {
                Ok(segment) => segment,
                Err(e) => {
                    return Err(e);
                },
            };
            segments.push(variable);
            assert(views(segments@) =~= acc.push(variable@));
            if !is_empty(&literal) {
                segments.push(literal);
            }
            assert(views(segments@) =~= acc.push(variable@) + kept(literal@));
            at = after + 1;
            if !self.is_punctuator(at, Punctuator::Dollar) {
                return Ok((segments, at));
            }
        }
    }

    fn parse_string(&self, i: usize) -> (r: Result<(StringValue<Span>, usize), ParserError>)
        ensures
            parsed_view(r) == string_at(self.model(), self.end(), i as int),
            r is Ok ==> i < r->Ok_0.1 <= self.count(),
    {
        reveal(string_at);
        match self.parse_segments(i, InterpolationKind::String) {
            Ok((segments, next)) => Ok((StringValue { span: self.cover(i, next), segments }, next)),
            Err(e) => Err(e),
        }
    }

    fn parse_text(&self, i: usize) -> (r: Result<(Text<Span>, usize), ParserError>)
        ensures
            parsed_view(r) == text_at(self.model(), self.end(), i as int),
            r is Ok ==> i < r->Ok_0.1 <= self.count(),
    {
        reveal(text_at);
        match self.parse_segments(i, InterpolationKind::Text) {
            Ok((segments, next)) => Ok((Text { span: self.cover(i, next), segments }, next)),
            Err(e) => Err(e),
        }
    }

    fn parse_value(&self, i: usize) -> (r: Result<(Value<Span>, usize), ParserError>)
        ensures
            parsed_view(r) == value_at(self.model(), self.end(), i as int),
            r is Ok ==> i < r->Ok_0.1 <= self.count(),
    {
        reveal(value_at);
        if i < self.size() {
            let span = self.token(i).1;
            match &self.token(i).0 {
                TokenKind::IntegerLiteral(n) => {
                    return Ok((Value { span, kind: ValueKind::Integer(n.0) }, i + 1));
                },
                TokenKind::BooleanLiteral(b) => {
                    return Ok((Value { span, kind: ValueKind::Bool(b.0) }, i + 1));
                },
                TokenKind::StringLiteral(_) => {
                    return match self.parse_string(i) {
                        Ok((string, next)) => Ok(
                            (Value { span: string.span, kind: ValueKind::String(string) }, next),
                        ),
                        Err(e) => Err(e),
                    };
                },
                TokenKind::Identifier(identifier) => {
                    return Ok(
                        (
                            Value {
                                span,
                                kind: ValueKind::Variable(
                                    Identifier { span, name: identifier.0.clone() },
                                ),
                            },
                            i + 1,
                        ),
                    );
                },
                _ => {},
            }
        }
        Err(self.fail(i, Expected::Value))
    }

    fn parse_property(&self, i: usize) -> (r: Result<(Property<Span>, usize), ParserError>)
        ensures
            parsed_view(r) == property_at(self.model(), self.end(), i as int),
            r is Ok ==> i < r->Ok_0.1 <= self.count(),
    {
        reveal(property_at);
        let (key, after_key) = match self.parse_identifier(i) {
            Ok(found) => found,
            Err(e) => {
                return Err(e);
            },
        };
        if self.is_punctuator(after_key, Punctuator::Equals) {
            match self.parse_value(after_key + 1) {
                Ok((value, next)) => Ok(
                    (
                        Property {
                            span: self.cover(i, next),
                            kind: PropertyKind::KeyValue { key, value },
                        },
                        next,
                    ),
                ),
                Err(e) => Err(e),
            }
        } else {
            Ok((Property { span: self.token(i).1, kind: PropertyKind::Flag { key } }, after_key))
        }
    }

    fn parse_properties_rest(&self, i: usize, properties: &mut Vec<Property<Span>>) -> (r: Result<
        usize,
        ParserError,
    >)
        requires
            i <= self.count(),
        ensures
            match r {
                Ok(end) => properties_rest(
                    self.model(),
                    self.end(),
                    i as int,
                    views(old(properties)@),
                ) == Ok::<(Seq<crate::ast::PropertyView<Span>>, int), ParserError>(
                    (views(final(properties)@), end as int),
                ) && i <= end < self.count(),
                Err(e) => properties_rest(
                    self.model(),
                    self.end(),
                    i as int,
                    views(old(properties)@),
                ) == Err::<(Seq<crate::ast::PropertyView<Span>>, int), ParserError>(e),
            },
    {
        reveal(properties_rest);
        let ghost model = self.model();
        let ghost eof = self.end();
        let ghost goal = properties_rest(model, eof, i as int, views(properties@));
        let mut at: usize = i;
        loop
            invariant
                model == self.model(),
                eof == self.end(),
                i <= at <= self.count(),
                goal == properties_rest(model, eof, i as int, views(old(properties)@)),
                goal == properties_rest(model, eof, at as int, views(properties@)),
            decreases self.count() - at,
        {
            reveal(properties_rest);
            if self.is_punctuator(at, Punctuator::Comma) {
                if self.starts_identifier(at + 1) {
                    let ghost acc = views(properties@);
                    match self.parse_property(at + 1) {
                        Ok((property, next)) => {
                            properties.push(property);
                            assert(views(properties@) =~= acc.push(property@));
                            at = next;
                        },
                        Err(e) => {
                            return Err(e);
                        },
                    }
                } else if self.is_punctuator(at + 1, Punctuator::RightSquareBracket) {
                    return Ok(at + 1);
                } else {
                    return Err(self.fail(at + 1, Expected::PropertyOrClosingBracket));
                }
            } else if self.is_punctuator(at, Punctuator::RightSquareBracket) {
                return Ok(at);
            } else {
                return Err(self.fail(at, Expected::CommaOrClosingBracket));
            }
        }
    }

    fn parse_properties(&self, i: usize) -> (r: Result<(Properties<Span>, usize), ParserError>)
        requires
            i < self.count(),
            punctuator_at(self.model(), i as int, Punctuator::LeftSquareBracket),
        ensures
            parsed_view(r) == properties_at(self.model(), self.end(), i as int),
            r is Ok ==> i < r->Ok_0.1 <= self.count(),
    {
        reveal(properties_at);
        let inside: usize = i + 1;
        if self.is_punctuator(inside, Punctuator::RightSquareBracket) {
            let properties: Vec<Property<Span>> = Vec::new();
            assert(views(properties@) =~= Seq::<crate::ast::PropertyView<Span>>::empty());
            return Ok(
                (Properties { span: self.cover(i, i + 2), default: None, properties }, i + 2),
            );
        }
        if self.is_punctuator(inside, Punctuator::Comma) {
            return match self.parse_punctuator(inside + 1, Punctuator::RightSquareBracket) {
                Ok(next) => {
                    let properties: Vec<Property<Span>> = Vec::new();
                    assert(views(properties@) =~= Seq::<crate::ast::PropertyView<Span>>::empty());
                    Ok((Properties { span: self.cover(i, next), default: None, properties }, next))
                },
                Err(e) => Err(e),
            };
        }
        let mut default: Option<Value<Span>> = None;
        let mut properties: Vec<Property<Span>> = Vec::new();
        let after: usize;
        if self.starts_identifier(inside) {
            match self.parse_property(inside) {
                Ok((first, next)) => {
                    properties.push(first);
                    assert(views(properties@) =~= seq![first@]);
                    after = next;
                },
                Err(e) => {
                    return Err(e);
                },
            }
        } else if self.starts_value(inside) {
            match self.parse_value(inside) {
                Ok((value, next)) => {
                    default = Some(value);
                    assert(views(properties@) =~= Seq::<crate::ast::PropertyView<Span>>::empty());
                    after = next;
                },
                Err(e) => {
                    return Err(e);
                },
            }
        } else {
            return Err(self.fail(inside, Expected::PropertiesContent));
        }
        match self.parse_properties_rest(after, &mut properties) {
            Ok(end) => Ok(
                (Properties { span: self.cover(i, end + 1), default, properties }, end + 1),
            ),
            Err(e) => Err(e),
        }
    }

    fn parse_component_name(&self, i: usize) -> (r: Result<(Identifier<Span>, usize), ParserError>)
        ensures
            parsed_view(r) == component_name_at(self.model(), self.end(), i as int),
            r is Ok ==> r->Ok_0.1 == i + 1 && i < self.count(),
    {
        reveal(component_name_at);
        if i < self.size() {
            let span = self.token(i).1;
            match &self.token(i).0 {
                TokenKind::Identifier(identifier) => {
                    return Ok((Identifier { span, name: identifier.0.clone() }, i + 1));
                },
                TokenKind::Punctuator(Punctuator::At) => {
                    return Ok((Identifier { span, name: "@".to_owned() }, i + 1));
                },
                TokenKind::Punctuator(Punctuator::Hash) => {
                    return Ok((Identifier { span, name: "#".to_owned() }, i + 1));
                },
                _ => {},
            }
        }
        Err(self.fail(i, Expected::Item))
    }

    fn parse_optional_text(&self, i: usize) -> (r: Result<(Option<Text<Span>>, usize), ParserError>)
        ensures
            match r {
                Ok((text, next)) => optional_text_at(
                    self.model(),
                    self.end(),
                    i as int,
                ) == Ok::<(Option<crate::ast::TextView<Span>>, int), ParserError>(
                    (option_view(text), next as int),
                ) && i <= next && (next <= self.count() || next == i),
                Err(e) => optional_text_at(self.model(), self.end(), i as int)
                    == Err::<(Option<crate::ast::TextView<Span>>, int), ParserError>(e),
            },
    {
        reveal(optional_text_at);
        if self.starts_text(i) {
            match self.parse_text(i) {
                Ok((text, next)) => Ok((Some(text), next)),
                Err(e) => Err(e),
            }
        } else {
            Ok((None, i))
        }
    }

    fn parse_component(&self, i: usize) -> (r: Result<(Component<Span>, usize), ParserError>)
        ensures
            parsed_view(r) == component_at(self.model(), self.end(), i as int),
            r is Ok ==> i < r->Ok_0.1 <= self.count(),
        decreases self.count() - i, 0int,
    {
        reveal(component_at);
        reveal(children_rest);
        reveal(optional_children_at);
        reveal(optional_properties_at);
        proof {
            self.lemma_model_len();
        }
        let (name, after_name) = match self.parse_component_name(i) {
            Ok(found) => found,
            Err(e) => {
                return Err(e);
            },
        };
        let (properties, after_properties) = if self.is_punctuator(
            after_name,
            Punctuator::LeftSquareBracket,
        ) {
            match self.parse_properties(after_name) {
                Ok((properties, next)) => (Some(properties), next),
                Err(e) => {
                    return Err(e);
                },
            }
        } else {
            (None, after_name)
        };
        let (early_text, after_text) = match self.parse_optional_text(after_properties) {
            Ok(found) => found,
            Err(e) => {
                return Err(e);
            },
        };
        let (children, after_children) = match self.parse_children(after_text) {
            Ok(found) => found,
            Err(e) => {
                return Err(e);
            },
        };
        let (text, next) = if early_text.is_some() {
            (early_text, after_children)
        } else {
            match self.parse_optional_text(after_children) {
                Ok(found) => found,
                Err(e) => {
                    return Err(e);
                },
            }
        };
        let component = Component { span: self.cover(i, next), name, properties, children, text };
        proof {
            lemma_component_children_view(component);
        }
        Ok((component, next))
    }

    fn parse_children(&self, i: usize) -> (r: Result<
        (Option<ComponentChildren<Span>>, usize),
        ParserError,
    >)
        requires
            0 < i <= self.count(),
        ensures
            match r {
                Ok((children, next)) => optional_children_at(self.model(), self.end(), i as int)
                    == Ok::<(Option<crate::ast::ComponentChildrenView<Span>>, int), ParserError>(
                    (option_view(children), next as int),
                ) && i <= next <= self.count(),
                Err(e) => optional_children_at(self.model(), self.end(), i as int) == Err::<
                    (Option<crate::ast::ComponentChildrenView<Span>>, int),
                    ParserError,
                >(e),
            },
        decreases self.count() - i, 2int,
    {
        reveal(component_at);
        reveal(children_rest);
        reveal(optional_children_at);
        if !self.is_punctuator(i, Punctuator::LeftCurlyBracket) {
            return Ok((None, i));
        }
        let ghost model = self.model();
        let ghost eof = self.end();
        let ghost goal = children_rest(model, eof, i + 1, seq![]);
        let mut children: Vec<Component<Span>> = Vec::new();
        let mut at: usize = i + 1;
        assert(views(children@) =~= Seq::<crate::ast::ComponentView<Span>>::empty());
        loop
            invariant
                model == self.model(),
                eof == self.end(),
                i < at <= self.count(),
                punctuator_at(model, i as int, Punctuator::LeftCurlyBracket),
                goal == children_rest(model, eof, i + 1, seq![]),
                goal == children_rest(model, eof, at as int, views(children@)),
            decreases self.count() - at,
        {
            reveal(component_at);
            reveal(children_rest);
            reveal(optional_children_at);
            proof {
                self.lemma_model_len();
            }
            if self.is_punctuator(at, Punctuator::RightCurlyBracket) {
                let list = ComponentChildren { span: self.cover(i, at + 1), children };
                return Ok((Some(list), at + 1));
            } else if self.starts_component(at) {
                let ghost acc = views(children@);
                match self.parse_component(at) {
                    Ok((component, next)) => {
                        children.push(component);
                        assert(views(children@) =~= acc.push(component@));
                        at = next;
                    },
                    Err(e) => {
                        return Err(e);
                    },
                }
            } else {
                return Err(self.fail(at, Expected::ComponentOrClosingBracket));
            }
        }
    }

    fn parse_type(&self, i: usize) -> (r: Result<(Type<Span>, usize), ParserError>)
        ensures
            parsed_view(r) == type_at(self.model(), self.end(), i as int),
            r is Ok ==> i < r->Ok_0.1 <= self.count(),
    {
        reveal(type_at);
        if i < self.size() {
            let span = self.token(i).1;
            match &self.token(i).0 {
                TokenKind::Type(token::Type::String) => {
                    return Ok((Type { span, kind: TypeKind::String }, i + 1));
                },
                TokenKind::Type(token::Type::Integer) => {
                    return Ok((Type { span, kind: TypeKind::Integer }, i + 1));
                },
                TokenKind::Type(token::Type::Bool) => {
                    return Ok((Type { span, kind: TypeKind::Bool }, i + 1));
                },
                TokenKind::Type(token::Type::Slot) => {
                    if self.is_punctuator(i + 1, Punctuator::LeftSquareBracket)
                        && self.is_punctuator(i + 2, Punctuator::RightSquareBracket) {
                        return Ok(
                            (Type { span: self.cover(i, i + 3), kind: TypeKind::SlotList }, i + 3),
                        );
                    } else {
                        return Ok((Type { span, kind: TypeKind::Slot }, i + 1));
                    }
                },
                _ => {},
            }
        }
        Err(self.fail(i, Expected::Type))
    }

    fn parse_named_property_definition(&self, i: usize) -> (r: Result<
        (NamedPropertyDefinition<Span>, usize),
        ParserError,
    >)
        ensures
            parsed_view(r) == named_definition_at(self.model(), self.end(), i as int),
            r is Ok ==> i < r->Ok_0.1 <= self.count(),
    {
        reveal(named_definition_at);
        let (name, after_name) = match self.parse_identifier(i) {
            Ok(found) => found,
            Err(e) => {
                return Err(e);
            },
        };
        let after_colon = match self.parse_punctuator(after_name, Punctuator::Colon) {
            Ok(next) => next,
            Err(e) => {
                return Err(e);
            },
        };
        let (ty, after_type) = match self.parse_type(after_colon) {
            Ok(found) => found,
            Err(e) => {
                return Err(e);
            },
        };
        if self.is_punctuator(after_type, Punctuator::Equals) {
            match self.parse_value(after_type + 1) {
                Ok((value, next)) => Ok(
                    (NamedPropertyDefinition { name, ty, default_value: Some(value) }, next),
                ),
                Err(e) => Err(e),
            }
        } else {
            Ok((NamedPropertyDefinition { name, ty, default_value: None }, after_type))
        }
    }

    fn parse_property_definition(&self, i: usize) -> (r: Result<
        (PropertyDefinition<Span>, usize),
        ParserError,
    >)
        ensures
            parsed_view(r) == property_definition_at(self.model(), self.end(), i as int),
            r is Ok ==> i < r->Ok_0.1 <= self.count(),
    {
        reveal(property_definition_at);
        if self.is_keyword(i, Keyword::Default) {
            match self.parse_named_property_definition(i + 1) {
                Ok((definition, next)) => Ok(
                    (
                        PropertyDefinition {
                            span: self.cover(i, next),
                            kind: PropertyDefinitionKind::Default(definition),
                        },
                        next,
                    ),
                ),
                Err(e) => Err(e),
            }
        } else if self.is_keyword(i, Keyword::Text) {
            match self.parse_identifier(i + 1) {
                Ok((name, next)) => Ok(
                    (
                        PropertyDefinition {
                            span: self.cover(i, next),
                            kind: PropertyDefinitionKind::Text(TextPropertyDefinition { name }),
                        },
                        next,
                    ),
                ),
                Err(e) => Err(e),
            }
        } else if self.starts_identifier(i) {
            match self.parse_named_property_definition(i) {
                Ok((definition, next)) => Ok(
                    (
                        PropertyDefinition {
                            span: self.cover(i, next),
                            kind: PropertyDefinitionKind::Named(definition),
                        },
                        next,
                    ),
                ),
                Err(e) => Err(e),
            }
        } else {
            Err(self.fail(i, Expected::PropertyDefinition))
        }
    }

    fn parse_properties_definition(&self, i: usize) -> (r: Result<
        (PropertiesDefinition<Span>, usize),
        ParserError,
    >)
        requires
            i < self.count(),
            punctuator_at(self.model(), i as int, Punctuator::LeftSquareBracket),
        ensures
            parsed_view(r) == properties_definition_at(self.model(), self.end(), i as int),
            r is Ok ==> i < r->Ok_0.1 <= self.count(),
    {
        reveal(properties_definition_at);
        reveal(definitions_rest);
        let ghost model = self.model();
        let ghost eof = self.end();
        let mut properties: Vec<PropertyDefinition<Span>> = Vec::new();
        if self.is_punctuator(i + 1, Punctuator::RightSquareBracket) {
            assert(views(properties@) =~= Seq::<crate::ast::PropertyDefinitionView<Span>>::empty());
            return Ok((PropertiesDefinition { span: self.cover(i, i + 2), properties }, i + 2));
        }
        let mut at: usize;
        match self.parse_property_definition(i + 1) {
            Ok((first, next)) => {
                properties.push(first);
                assert(views(properties@) =~= seq![first@]);
                at = next;
            },
            Err(e) => {
                return Err(e);
            },
        }
        let ghost goal = definitions_rest(model, eof, at as int, views(properties@));
        let ghost whole = properties_definition_at(model, eof, i as int);
        loop
            invariant
                model == self.model(),
                eof == self.end(),
                i < at <= self.count(),
                whole == properties_definition_at(model, eof, i as int),
                whole == (match goal {
                    Err(e) => Err::<
                        (crate::ast::PropertiesDefinitionView<Span>, int),
                        ParserError,
                    >(e),
                    Ok((properties, end)) => Ok(
                        (
                            crate::ast::PropertiesDefinitionView {
                                span: span_of(model, i as int, end + 1),
                                properties,
                            },
                            end + 1,
                        ),
                    ),
                }),
                goal == definitions_rest(model, eof, at as int, views(properties@)),
            decreases self.count() - at,
        {
            reveal(properties_definition_at);
            reveal(definitions_rest);
            if self.is_punctuator(at, Punctuator::Comma) {
                let ghost acc = views(properties@);
                match self.parse_property_definition(at + 1) {
                    Ok((definition, next)) => {
                        properties.push(definition);
                        assert(views(properties@) =~= acc.push(definition@));
                        at = next;
                    },
                    Err(e) => {
                        return Err(e);
                    },
                }
            } else if self.is_punctuator(at, Punctuator::RightSquareBracket) {
                return Ok(
                    (PropertiesDefinition { span: self.cover(i, at + 1), properties }, at + 1),
                );
            } else {
                return Err(self.fail(at, Expected::CommaOrClosingBracket));
            }
        }
    }

    fn parse_component_definition(&self, i: usize) -> (r: Result<
        (ComponentDefinition<Span>, usize),
        ParserError,
    >)
        requires
            i < self.count(),
            keyword_at(self.model(), i as int, Keyword::Component),
        ensures
            parsed_view(r) == component_definition_at(self.model(), self.end(), i as int),
            r is Ok ==> i < r->Ok_0.1 <= self.count(),
    {
        reveal(component_definition_at);
        reveal(optional_properties_definition_at);
        let (name, after_name) = match self.parse_identifier(i + 1) {
            Ok(found) => found,
            Err(e) => {
                return Err(e);
            },
        };
        let (properties, after_properties) = if self.is_punctuator(
            after_name,
            Punctuator::LeftSquareBracket,
        ) {
            match self.parse_properties_definition(after_name) {
                Ok((properties, next)) => (Some(properties), next),
                Err(e) => {
                    return Err(e);
                },
            }
        } else {
            (None, after_name)
        };
        let (children, next) = match self.parse_children(after_properties) {
            Ok(found) => found,
            Err(e) => {
                return Err(e);
            },
        };
        Ok(
            (ComponentDefinition { span: self.cover(i, next), name, properties, children }, next),
        )
    }

    fn parse_module_item(&self, i: usize) -> (r: Result<(ModuleItem<Span>, usize), ParserError>)
        ensures
            parsed_view(r) == item_at(self.model(), self.end(), i as int),
            r is Ok ==> i < r->Ok_0.1 <= self.count(),
    {
        reveal(item_at);
        if self.is_keyword(i, Keyword::Component) {
            match self.parse_component_definition(i) {
                Ok((definition, next)) => Ok((ModuleItem::ComponentDefinition(definition), next)),
                Err(e) => Err(e),
            }
        } else {
            match self.parse_component(i) {
                Ok((component, next)) => Ok((ModuleItem::Component(component), next)),
                Err(e) => Err(e),
            }
        }
    }

    fn parse_module(&self) -> (r: Result<Module<Span>, ParserError>)
        ensures
            match r {
                Ok(module) => parse_module(self.model(), self.end()) == Ok::<
                    crate::ast::ModuleView<Span>,
                    ParserError,
                >(module@),
                Err(e) => parse_module(self.model(), self.end()) == Err::<
                    crate::ast::ModuleView<Span>,
                    ParserError,
                >(e),
            },
    {
        reveal(parse_module);
        reveal(items_from);
        let ghost model = self.model();
        let ghost eof = self.end();
        let mut items: Vec<ModuleItem<Span>> = Vec::new();
        let mut at: usize = 0;
        assert(views(items@) =~= Seq::<crate::ast::ModuleItemView<Span>>::empty());
        while at < self.size()
            invariant
                model == self.model(),
                eof == self.end(),
                at <= self.count(),
                items_from(model, eof, 0, seq![]) == items_from(
                    model,
                    eof,
                    at as int,
                    views(items@),
                ),
            decreases self.count() - at,
        {
            reveal(parse_module);
            reveal(items_from);
            let ghost acc = views(items@);
            match self.parse_module_item(at) {
                Ok((item, next)) => {
                    items.push(item);
                    assert(views(items@) =~= acc.push(item@));
                    at = next;
                },
                Err(e) => {
                    return Err(e);
                },
            }
        }
        let span = if self.size() == 0 {
            self.eof
        } else {
            self.cover(0, self.size())
        };
        Ok(Module { span, items })
    }

    /// Reads the module that the tokens stand for. Where the tokens are no
    /// module, the error that is reported is the first one.
    pub fn parse(&self) -> (r: Result<Module<Span>, MultiParserError>)
        ensures
            outcome_view(r) == parse_module(self.model(), self.end()),
            r is Err ==> r->Err_0.related@.len() == 1,
    {
        match self.parse_module() {
            Ok(module) => Ok(module),
            Err(e) => Err(MultiParserError::single(e)),
        }
    }
}

fn is_empty(segment: &InterpolationSegment<Span>) -> (r: bool)
    ensures
        r == is_empty_literal(segment@),
{
    match &segment.kind {
        InterpolationSegmentKind::Literal(content) => content.as_str().unicode_len() == 0,
        InterpolationSegmentKind::Variable(_) => false,
    }
}

/// The module that a source text stands for. Where the text is no module,
/// the error that is reported is the first one.
pub fn parse(code: &str) -> (r: Result<Module<Span>, MultiParserError>)
    requires
        code@.len() <= MAX_SOURCE_LENGTH,
    ensures
        outcome_view(r) == parse_module(lex_tokens(code@), end_span(code@)),
        r is Err ==> r->Err_0.related@.len() == 1,
{
    let (tokens, eof) = Lexer::new(code).lex();
    MarkermlParser::new(tokens, eof).parse()
}

} // verus!

