//! What the parser computes, as functions on sequences of tokens.
//!
//! Each function reads the tokens from an offset and gives the tree that it
//! found with the offset after it, or the error at which it stopped. The
//! span of a tree is the union of the spans of the tokens that it was read
//! from.

use vstd::prelude::*;
use crate::ast::{
    ComponentChildrenView, ComponentDefinitionView, ComponentView, IdentifierView,
    InterpolationSegmentKindView, InterpolationSegmentView, ModuleItemView, ModuleView,
    NamedPropertyDefinitionView, PropertiesDefinitionView, PropertiesView,
    PropertyDefinitionKindView, PropertyDefinitionView, PropertyKindView, PropertyView,
    StringValueView, TextPropertyDefinitionView, TextView, TypeKind, TypeView, ValueKindView,
    ValueView,
};
use crate::lexer_model::InterpolationKind;
use crate::parser_error::{Expected, ParserError, ParserErrorKind};
use crate::span::Span;
use crate::token::{Keyword, Punctuator, TokenKindView, TokenView, Type};

verus! {

/// The outcome of reading a tree: the tree and the offset after it, or the
/// error.
pub type Parsed<T> = Result<(T, int), ParserError>;

/// The kind of the token at `i`, if there is one.
pub open spec fn kind_at(tokens: Seq<TokenView>, i: int) -> Option<TokenKindView> {
    if 0 <= i < tokens.len() {
        Some(tokens[i].0)
    } else {
        None
    }
}

/// Whether the token at `i` is the punctuator `p`.
pub open spec fn punctuator_at(tokens: Seq<TokenView>, i: int, p: Punctuator) -> bool {
    kind_at(tokens, i) == Some(TokenKindView::Punctuator(p))
}

/// Whether the token at `i` is the keyword `k`.
pub open spec fn keyword_at(tokens: Seq<TokenView>, i: int, k: Keyword) -> bool {
    kind_at(tokens, i) == Some(TokenKindView::Keyword(k))
}

/// Whether the token at `i` is an identifier.
pub open spec fn identifier_starts(tokens: Seq<TokenView>, i: int) -> bool {
    kind_at(tokens, i) is Some && kind_at(tokens, i)->0 is Identifier
}

/// Whether the token at `i` is a segment of a text.
pub open spec fn text_starts(tokens: Seq<TokenView>, i: int) -> bool {
    kind_at(tokens, i) is Some && kind_at(tokens, i)->0 is Text
}

/// Whether the token at `i` can start a value.
pub open spec fn value_starts(tokens: Seq<TokenView>, i: int) -> bool {
    match kind_at(tokens, i) {
        Some(TokenKindView::IntegerLiteral(_)) => true,
        Some(TokenKindView::BooleanLiteral(_)) => true,
        Some(TokenKindView::StringLiteral { .. }) => true,
        Some(TokenKindView::Identifier(_)) => true,
        _ => false,
    }
}

/// Whether the token at `i` can start a component: an identifier, `@` or `#`.
pub open spec fn component_starts(tokens: Seq<TokenView>, i: int) -> bool {
    identifier_starts(tokens, i) || punctuator_at(tokens, i, Punctuator::At) || punctuator_at(
        tokens,
        i,
        Punctuator::Hash,
    )
}

/// The span of the token at `i`, or the span of the end where there is none.
pub open spec fn span_or_end(tokens: Seq<TokenView>, eof: Span, i: int) -> Span {
    if 0 <= i < tokens.len() {
        tokens[i].1
    } else {
        eof
    }
}

/// The union of the spans of the tokens from `start` up to `end`, where
/// there is at least one.
pub open spec fn span_of(tokens: Seq<TokenView>, start: int, end: int) -> Span
    decreases end - start,
{
    if end - start <= 1 {
        tokens[start].1
    } else {
        span_of(tokens, start, end - 1).spec_union(tokens[end - 1].1)
    }
}

/// The kind of the error at the token at `i`: by the token, or the end of
/// the input where there is none.
pub open spec fn failure_kind(tokens: Seq<TokenView>, i: int) -> ParserErrorKind {
    match kind_at(tokens, i) {
        None => ParserErrorKind::UnexpectedEnd,
        Some(TokenKindView::Invalid) => ParserErrorKind::InvalidToken,
        Some(TokenKindView::StringLiteral { is_closed, .. }) => if is_closed {
            ParserErrorKind::UnexpectedToken
        } else {
            ParserErrorKind::UnclosedLiteral
        },
        Some(TokenKindView::Text { is_closed, .. }) => if is_closed {
            ParserErrorKind::UnexpectedToken
        } else {
            ParserErrorKind::UnclosedLiteral
        },
        Some(_) => ParserErrorKind::UnexpectedToken,
    }
}

/// The error at the token at `i`, where `expected` could have stood.
pub open spec fn failure(tokens: Seq<TokenView>, eof: Span, i: int, expected: Expected) -> ParserError {
    ParserError { kind: failure_kind(tokens, i), expected, span: span_or_end(tokens, eof, i) }
}

/// An identifier at `i`.
#[verifier::opaque]
pub open spec fn identifier_at(tokens: Seq<TokenView>, eof: Span, i: int) -> Parsed<
    IdentifierView<Span>,
> {
    match kind_at(tokens, i) {
        Some(TokenKindView::Identifier(name)) => Ok(
            (IdentifierView { span: tokens[i].1, name }, i + 1),
        ),
        _ => Err(failure(tokens, eof, i, Expected::Identifier)),
    }
}

/// The punctuator `p` at `i`; the result is the offset after it.
#[verifier::opaque]
pub open spec fn expect_punctuator(tokens: Seq<TokenView>, eof: Span, i: int, p: Punctuator) -> Result<
    int,
    ParserError,
> {
    if punctuator_at(tokens, i, p) {
        Ok(i + 1)
    } else {
        Err(failure(tokens, eof, i, Expected::Punctuator(p)))
    }
}

/// What is expected where a segment of a literal is missing.
pub open spec fn segment_expected(kind: InterpolationKind) -> Expected {
    match kind {
        InterpolationKind::String => Expected::StringSegment,
        InterpolationKind::Text => Expected::TextSegment,
    }
}

/// What is expected where a literal is not closed.
pub open spec fn closing_expected(kind: InterpolationKind) -> Expected {
    match kind {
        InterpolationKind::String => Expected::ClosingQuote,
        InterpolationKind::Text => Expected::ClosingParenthesis,
    }
}

/// The content and the closing mark of the token at `i`, where it is a
/// segment of a literal of the given kind.
pub open spec fn literal_content(tokens: Seq<TokenView>, i: int, kind: InterpolationKind) -> Option<
    (Seq<char>, bool),
> {
    match (kind, kind_at(tokens, i)) {
        (
            InterpolationKind::String,
            Some(TokenKindView::StringLiteral { content, is_closed }),
        ) => Some((content, is_closed)),
        (InterpolationKind::Text, Some(TokenKindView::Text { content, is_closed })) => Some(
            (content, is_closed),
        ),
        _ => None,
    }
}

/// A literal segment at `i`. A segment that is not closed is an error.
#[verifier::opaque]
pub open spec fn literal_at(tokens: Seq<TokenView>, eof: Span, i: int, kind: InterpolationKind) -> Result<
    InterpolationSegmentView<Span>,
    ParserError,
> {
    match literal_content(tokens, i, kind) {
        Some((content, is_closed)) => if is_closed {
            Ok(
                InterpolationSegmentView {
                    span: tokens[i].1,
                    kind: InterpolationSegmentKindView::Literal(content),
                },
            )
        } else {
            Err(failure(tokens, eof, i, closing_expected(kind)))
        },
        None => Err(failure(tokens, eof, i, segment_expected(kind))),
    }
}

/// An interpolated variable at `i`: `$`, `{`, an identifier and `}`.
#[verifier::opaque]
pub open spec fn interpolation_at(tokens: Seq<TokenView>, eof: Span, i: int) -> Parsed<
    InterpolationSegmentView<Span>,
> {
    match expect_punctuator(tokens, eof, i, Punctuator::Dollar) {
        Err(e) => Err(e),
        Ok(_) => match expect_punctuator(tokens, eof, i + 1, Punctuator::LeftCurlyBracket) {
            Err(e) => Err(e),
            Ok(_) => match identifier_at(tokens, eof, i + 2) {
                Err(e) => Err(e),
                Ok((name, _)) => match expect_punctuator(
                    tokens,
                    eof,
                    i + 3,
                    Punctuator::RightCurlyBracket,
                ) {
                    Err(e) => Err(e),
                    Ok(_) => Ok(
                        (
                            InterpolationSegmentView {
                                span: span_of(tokens, i, i + 4),
                                kind: InterpolationSegmentKindView::Variable(name),
                            },
                            i + 4,
                        ),
                    ),
                },
            },
        },
    }
}

/// Whether a segment is a literal without characters.
pub open spec fn is_empty_literal(segment: InterpolationSegmentView<Span>) -> bool {
    segment.kind is Literal && segment.kind->Literal_0.len() == 0
}

/// A literal segment as it is kept beside interpolations: not at all where it
/// is empty.
pub open spec fn kept(segment: InterpolationSegmentView<Span>) -> Seq<
    InterpolationSegmentView<Span>,
> {
    if is_empty_literal(segment) {
        seq![]
    } else {
        seq![segment]
    }
}

/// The rest of the segments of a literal, from the `$` at `i` on: an
/// interpolation and a literal segment, as often as a `$` follows.
#[verifier::opaque]
pub open spec fn segments_tail(
    tokens: Seq<TokenView>,
    eof: Span,
    i: int,
    kind: InterpolationKind,
    acc: Seq<InterpolationSegmentView<Span>>,
) -> Parsed<Seq<InterpolationSegmentView<Span>>>
    decreases tokens.len() - i,
{
    match interpolation_at(tokens, eof, i) {
        Err(e) => Err(e),
        Ok((variable, _)) => match literal_at(tokens, eof, i + 4, kind) {
            Err(e) => Err(e),
            Ok(literal) => {
                let all = acc.push(variable) + kept(literal);
                if punctuator_at(tokens, i + 5, Punctuator::Dollar) {
                    segments_tail(tokens, eof, i + 5, kind, all)
                } else {
                    Ok((all, i + 5))
                }
            },
        },
    }
}

/// The segments of a literal at `i`: a literal segment, then an
/// interpolation and a literal segment as often as a `$` follows. A literal
/// without interpolations is one segment; beside interpolations, empty
/// literal segments are left out.
#[verifier::opaque]
pub open spec fn segments_at(tokens: Seq<TokenView>, eof: Span, i: int, kind: InterpolationKind) -> Parsed<
    Seq<InterpolationSegmentView<Span>>,
> {
    match literal_at(tokens, eof, i, kind) {
        Err(e) => Err(e),
        Ok(first) => if punctuator_at(tokens, i + 1, Punctuator::Dollar) {
            segments_tail(tokens, eof, i + 1, kind, kept(first))
        } else {
            Ok((seq![first], i + 1))
        },
    }
}

/// A string at `i`.
#[verifier::opaque]
pub open spec fn string_at(tokens: Seq<TokenView>, eof: Span, i: int) -> Parsed<
    StringValueView<Span>,
> {
    match segments_at(tokens, eof, i, InterpolationKind::String) {
        Err(e) => Err(e),
        Ok((segments, next)) => Ok(
            (StringValueView { span: span_of(tokens, i, next), segments }, next),
        ),
    }
}

/// A text at `i`.
#[verifier::opaque]
pub open spec fn text_at(tokens: Seq<TokenView>, eof: Span, i: int) -> Parsed<TextView<Span>> {
    match segments_at(tokens, eof, i, InterpolationKind::Text) {
        Err(e) => Err(e),
        Ok((segments, next)) => Ok((TextView { span: span_of(tokens, i, next), segments }, next)),
    }
}

/// A value at `i`: an integer, a boolean, a string or a variable.
#[verifier::opaque]
pub open spec fn value_at(tokens: Seq<TokenView>, eof: Span, i: int) -> Parsed<ValueView<Span>> {
    match kind_at(tokens, i) {
        Some(TokenKindView::IntegerLiteral(n)) => Ok(
            (ValueView { span: tokens[i].1, kind: ValueKindView::Integer(n) }, i + 1),
        ),
        Some(TokenKindView::BooleanLiteral(b)) => Ok(
            (ValueView { span: tokens[i].1, kind: ValueKindView::Bool(b) }, i + 1),
        ),
        Some(TokenKindView::StringLiteral { .. }) => match string_at(tokens, eof, i) {
            Err(e) => Err(e),
            Ok((string, next)) => Ok(
                (ValueView { span: string.span, kind: ValueKindView::String(string) }, next),
            ),
        },
        Some(TokenKindView::Identifier(name)) => Ok(
            (
                ValueView {
                    span: tokens[i].1,
                    kind: ValueKindView::Variable(IdentifierView { span: tokens[i].1, name }),
                },
                i + 1,
            ),
        ),
        _ => Err(failure(tokens, eof, i, Expected::Value)),
    }
}

/// A property at `i`: an identifier with `=` and a value, or an identifier
/// alone, which is a flag.
#[verifier::opaque]
pub open spec fn property_at(tokens: Seq<TokenView>, eof: Span, i: int) -> Parsed<
    PropertyView<Span>,
> {
    match identifier_at(tokens, eof, i) {
        Err(e) => Err(e),
        Ok((key, _)) => if punctuator_at(tokens, i + 1, Punctuator::Equals) {
            match value_at(tokens, eof, i + 2) {
                Err(e) => Err(e),
                Ok((value, next)) => Ok(
                    (
                        PropertyView {
                            span: span_of(tokens, i, next),
                            kind: PropertyKindView::KeyValue { key, value },
                        },
                        next,
                    ),
                ),
            }
        } else {
            Ok((PropertyView { span: tokens[i].1, kind: PropertyKindView::Flag { key } }, i + 1))
        },
    }
}

/// The rest of a list of properties, after a property or the default value:
/// a comma and a property as often as they follow, then an optional comma.
/// The result ends at the `]`.
#[verifier::opaque]
pub open spec fn properties_rest(
    tokens: Seq<TokenView>,
    eof: Span,
    i: int,
    acc: Seq<PropertyView<Span>>,
) -> Parsed<Seq<PropertyView<Span>>>
    decreases tokens.len() - i,
{
    if punctuator_at(tokens, i, Punctuator::Comma) {
        if identifier_starts(tokens, i + 1) {
            match property_at(tokens, eof, i + 1) {
                Err(e) => Err(e),
                Ok((property, next)) => {
                    proof {
                        lemma_property_advances(tokens, eof, i + 1);
                    }
                    properties_rest(tokens, eof, next, acc.push(property))
                },
            }
        } else if punctuator_at(tokens, i + 1, Punctuator::RightSquareBracket) {
            Ok((acc, i + 1))
        } else {
            Err(failure(tokens, eof, i + 1, Expected::PropertyOrClosingBracket))
        }
    } else if punctuator_at(tokens, i, Punctuator::RightSquareBracket) {
        Ok((acc, i))
    } else {
        Err(failure(tokens, eof, i, Expected::CommaOrClosingBracket))
    }
}

/// The properties of a component at the `[` at `i`: nothing, a list of
/// properties, or a default value with an optional list of properties; an
/// identifier at the start is a property, not a default value.
#[verifier::opaque]
pub open spec fn properties_at(tokens: Seq<TokenView>, eof: Span, i: int) -> Parsed<
    PropertiesView<Span>,
> {
    if punctuator_at(tokens, i + 1, Punctuator::RightSquareBracket) {
        Ok(
            (
                PropertiesView { span: span_of(tokens, i, i + 2), default: None, properties: seq![] },
                i + 2,
            ),
        )
    } else if punctuator_at(tokens, i + 1, Punctuator::Comma) {
        match expect_punctuator(tokens, eof, i + 2, Punctuator::RightSquareBracket) {
            Err(e) => Err(e),
            Ok(next) => Ok(
                (
                    PropertiesView {
                        span: span_of(tokens, i, next),
                        default: None,
                        properties: seq![],
                    },
                    next,
                ),
            ),
        }
    } else if identifier_starts(tokens, i + 1) {
        match property_at(tokens, eof, i + 1) {
            Err(e) => Err(e),
            Ok((first, after)) => match properties_rest(tokens, eof, after, seq![first]) {
                Err(e) => Err(e),
                Ok((properties, end)) => Ok(
                    (
                        PropertiesView {
                            span: span_of(tokens, i, end + 1),
                            default: None,
                            properties,
                        },
                        end + 1,
                    ),
                ),
            },
        }
    } else if value_starts(tokens, i + 1) {
        match value_at(tokens, eof, i + 1) {
            Err(e) => Err(e),
            Ok((value, after)) => match properties_rest(tokens, eof, after, seq![]) {
                Err(e) => Err(e),
                Ok((properties, end)) => Ok(
                    (
                        PropertiesView {
                            span: span_of(tokens, i, end + 1),
                            default: Some(value),
                            properties,
                        },
                        end + 1,
                    ),
                ),
            },
        }
    } else {
        Err(failure(tokens, eof, i + 1, Expected::PropertiesContent))
    }
}

/// The name of a component at `i`: an identifier, `@` or `#`.
#[verifier::opaque]
pub open spec fn component_name_at(tokens: Seq<TokenView>, eof: Span, i: int) -> Parsed<
    IdentifierView<Span>,
> {
    match kind_at(tokens, i) {
        Some(TokenKindView::Identifier(name)) => Ok(
            (IdentifierView { span: tokens[i].1, name }, i + 1),
        ),
        Some(TokenKindView::Punctuator(Punctuator::At)) => Ok(
            (IdentifierView { span: tokens[i].1, name: "@"@ }, i + 1),
        ),
        Some(TokenKindView::Punctuator(Punctuator::Hash)) => Ok(
            (IdentifierView { span: tokens[i].1, name: "#"@ }, i + 1),
        ),
        _ => Err(failure(tokens, eof, i, Expected::Item)),
    }
}

/// The properties at `i` where a `[` stands there.
#[verifier::opaque]
pub open spec fn optional_properties_at(tokens: Seq<TokenView>, eof: Span, i: int) -> Parsed<
    Option<PropertiesView<Span>>,
> {
    if punctuator_at(tokens, i, Punctuator::LeftSquareBracket) {
        match properties_at(tokens, eof, i) {
            Err(e) => Err(e),
            Ok((properties, next)) => Ok((Some(properties), next)),
        }
    } else {
        Ok((None, i))
    }
}

/// The text at `i` where a segment of a text stands there.
#[verifier::opaque]
pub open spec fn optional_text_at(tokens: Seq<TokenView>, eof: Span, i: int) -> Parsed<
    Option<TextView<Span>>,
> {
    if text_starts(tokens, i) {
        match text_at(tokens, eof, i) {
            Err(e) => Err(e),
            Ok((text, next)) => Ok((Some(text), next)),
        }
    } else {
        Ok((None, i))
    }
}

/// A component at `i`: a name, then optional properties, then an optional
/// text and optional children, in either order.
///
/// The children are looked for behind the name only. That is always so, as
/// the name is one token; the test makes the definition well founded.
#[verifier::opaque]
pub open spec fn component_at(tokens: Seq<TokenView>, eof: Span, i: int) -> Parsed<
    ComponentView<Span>,
>
    decreases tokens.len() - i, 0int,
{
    match component_name_at(tokens, eof, i) {
        Err(e) => Err(e),
        Ok((name, _)) => match optional_properties_at(tokens, eof, i + 1) {
            Err(e) => Err(e),
            Ok((properties, after_properties)) => match optional_text_at(
                tokens,
                eof,
                after_properties,
            ) {
                Err(e) => Err(e),
                Ok((early_text, after_text)) => {
                    if i < after_text <= tokens.len() {
                        match optional_children_at(tokens, eof, after_text) {
                            Err(e) => Err(e),
                            Ok((children, after_children)) => if early_text is Some {
                                Ok(
                                    (
                                        ComponentView {
                                            span: span_of(tokens, i, after_children),
                                            name,
                                            properties,
                                            children,
                                            text: early_text,
                                        },
                                        after_children,
                                    ),
                                )
                            } else {
                                match optional_text_at(tokens, eof, after_children) {
                                    Err(e) => Err(e),
                                    Ok((text, next)) => Ok(
                                        (
                                            ComponentView {
                                                span: span_of(tokens, i, next),
                                                name,
                                                properties,
                                                children,
                                                text,
                                            },
                                            next,
                                        ),
                                    ),
                                }
                            },
                        }
                    } else {
                        Err(failure(tokens, eof, i, Expected::Item))
                    }
                },
            },
        },
    }
}

/// The children at `i` where a `{` stands there.
#[verifier::opaque]
pub open spec fn optional_children_at(tokens: Seq<TokenView>, eof: Span, i: int) -> Parsed<
    Option<ComponentChildrenView<Span>>,
>
    decreases tokens.len() - i, 2int,
{
    if punctuator_at(tokens, i, Punctuator::LeftCurlyBracket) {
        match children_rest(tokens, eof, i + 1, seq![]) {
            Err(e) => Err(e),
            Ok((children, end)) => Ok(
                (
                    Some(ComponentChildrenView { span: span_of(tokens, i, end + 1), children }),
                    end + 1,
                ),
            ),
        }
    } else {
        Ok((None, i))
    }
}

/// The components from `i` up to the `}` that closes the list; the result
/// ends at that `}`.
///
/// The list goes on behind a component only. That is always so, as a
/// component ends after its name; the test makes the definition well
/// founded.
#[verifier::opaque]
pub open spec fn children_rest(
    tokens: Seq<TokenView>,
    eof: Span,
    i: int,
    acc: Seq<ComponentView<Span>>,
) -> Parsed<Seq<ComponentView<Span>>>
    decreases tokens.len() - i, 1int,
{
    if punctuator_at(tokens, i, Punctuator::RightCurlyBracket) {
        Ok((acc, i))
    } else if component_starts(tokens, i) {
        match component_at(tokens, eof, i) {
            Err(e) => Err(e),
            Ok((component, next)) => if i < next <= tokens.len() {
                children_rest(tokens, eof, next, acc.push(component))
            } else {
                Err(failure(tokens, eof, i, Expected::ComponentOrClosingBracket))
            },
        }
    } else {
        Err(failure(tokens, eof, i, Expected::ComponentOrClosingBracket))
    }
}

/// A type at `i`. The type `slot` with `[` and `]` after it is the list
/// type.
#[verifier::opaque]
pub open spec fn type_at(tokens: Seq<TokenView>, eof: Span, i: int) -> Parsed<TypeView<Span>> {
    match kind_at(tokens, i) {
        Some(TokenKindView::Type(Type::String)) => Ok(
            (TypeView { span: tokens[i].1, kind: TypeKind::String }, i + 1),
        ),
        Some(TokenKindView::Type(Type::Integer)) => Ok(
            (TypeView { span: tokens[i].1, kind: TypeKind::Integer }, i + 1),
        ),
        Some(TokenKindView::Type(Type::Bool)) => Ok(
            (TypeView { span: tokens[i].1, kind: TypeKind::Bool }, i + 1),
        ),
        Some(TokenKindView::Type(Type::Slot)) => if punctuator_at(
            tokens,
            i + 1,
            Punctuator::LeftSquareBracket,
        ) && punctuator_at(tokens, i + 2, Punctuator::RightSquareBracket) {
            Ok((TypeView { span: span_of(tokens, i, i + 3), kind: TypeKind::SlotList }, i + 3))
        } else {
            Ok((TypeView { span: tokens[i].1, kind: TypeKind::Slot }, i + 1))
        },
        _ => Err(failure(tokens, eof, i, Expected::Type)),
    }
}

/// The declaration of a property at `i`: an identifier, `:` and a type, then
/// an optional `=` with a value.
#[verifier::opaque]
pub open spec fn named_definition_at(tokens: Seq<TokenView>, eof: Span, i: int) -> Parsed<
    NamedPropertyDefinitionView<Span>,
> {
    match identifier_at(tokens, eof, i) {
        Err(e) => Err(e),
        Ok((name, _)) => match expect_punctuator(tokens, eof, i + 1, Punctuator::Colon) {
            Err(e) => Err(e),
            Ok(_) => match type_at(tokens, eof, i + 2) {
                Err(e) => Err(e),
                Ok((ty, after_type)) => if punctuator_at(tokens, after_type, Punctuator::Equals) {
                    match value_at(tokens, eof, after_type + 1) {
                        Err(e) => Err(e),
                        Ok((value, next)) => Ok(
                            (
                                NamedPropertyDefinitionView {
                                    name,
                                    ty,
                                    default_value: Some(value),
                                },
                                next,
                            ),
                        ),
                    }
                } else {
                    Ok(
                        (NamedPropertyDefinitionView { name, ty, default_value: None }, after_type),
                    )
                },
            },
        },
    }
}

/// A property declaration at `i`: `default` and a declaration, `text` and an
/// identifier, or a declaration.
#[verifier::opaque]
pub open spec fn property_definition_at(tokens: Seq<TokenView>, eof: Span, i: int) -> Parsed<
    PropertyDefinitionView<Span>,
> {
    if keyword_at(tokens, i, Keyword::Default) {
        match named_definition_at(tokens, eof, i + 1) {
            Err(e) => Err(e),
            Ok((definition, next)) => Ok(
                (
                    PropertyDefinitionView {
                        span: span_of(tokens, i, next),
                        kind: PropertyDefinitionKindView::Default(definition),
                    },
                    next,
                ),
            ),
        }
    } else if keyword_at(tokens, i, Keyword::Text) {
        match identifier_at(tokens, eof, i + 1) {
            Err(e) => Err(e),
            Ok((name, next)) => Ok(
                (
                    PropertyDefinitionView {
                        span: span_of(tokens, i, next),
                        kind: PropertyDefinitionKindView::Text(TextPropertyDefinitionView { name }),
                    },
                    next,
                ),
            ),
        }
    } else if identifier_starts(tokens, i) {
        match named_definition_at(tokens, eof, i) {
            Err(e) => Err(e),
            Ok((definition, next)) => Ok(
                (
                    PropertyDefinitionView {
                        span: span_of(tokens, i, next),
                        kind: PropertyDefinitionKindView::Named(definition),
                    },
                    next,
                ),
            ),
        }
    } else {
        Err(failure(tokens, eof, i, Expected::PropertyDefinition))
    }
}

/// The rest of a list of property declarations, after a declaration: a
/// comma and a declaration as often as a comma follows. The result ends at
/// the `]`.
#[verifier::opaque]
pub open spec fn definitions_rest(
    tokens: Seq<TokenView>,
    eof: Span,
    i: int,
    acc: Seq<PropertyDefinitionView<Span>>,
) -> Parsed<Seq<PropertyDefinitionView<Span>>>
    decreases tokens.len() - i,
{
    if punctuator_at(tokens, i, Punctuator::Comma) {
        match property_definition_at(tokens, eof, i + 1) {
            Err(e) => Err(e),
            Ok((definition, next)) => {
                proof {
                    lemma_property_definition_advances(tokens, eof, i + 1);
                }
                definitions_rest(tokens, eof, next, acc.push(definition))
            },
        }
    } else if punctuator_at(tokens, i, Punctuator::RightSquareBracket) {
        Ok((acc, i))
    } else {
        Err(failure(tokens, eof, i, Expected::CommaOrClosingBracket))
    }
}

/// The property declarations of a component definition at the `[` at `i`.
#[verifier::opaque]
pub open spec fn properties_definition_at(tokens: Seq<TokenView>, eof: Span, i: int) -> Parsed<
    PropertiesDefinitionView<Span>,
> {
    if punctuator_at(tokens, i + 1, Punctuator::RightSquareBracket) {
        Ok(
            (
                PropertiesDefinitionView { span: span_of(tokens, i, i + 2), properties: seq![] },
                i + 2,
            ),
        )
    } else {
        match property_definition_at(tokens, eof, i + 1) {
            Err(e) => Err(e),
            Ok((first, after)) => match definitions_rest(tokens, eof, after, seq![first]) {
                Err(e) => Err(e),
                Ok((properties, end)) => Ok(
                    (
                        PropertiesDefinitionView { span: span_of(tokens, i, end + 1), properties },
                        end + 1,
                    ),
                ),
            },
        }
    }
}

/// The property declarations at `i` where a `[` stands there.
#[verifier::opaque]
pub open spec fn optional_properties_definition_at(
    tokens: Seq<TokenView>,
    eof: Span,
    i: int,
) -> Parsed<Option<PropertiesDefinitionView<Span>>> {
    if punctuator_at(tokens, i, Punctuator::LeftSquareBracket) {
        match properties_definition_at(tokens, eof, i) {
            Err(e) => Err(e),
            Ok((properties, next)) => Ok((Some(properties), next)),
        }
    } else {
        Ok((None, i))
    }
}

/// A component definition at the keyword `component` at `i`: the keyword
/// and a name, then optional property declarations and optional children.
#[verifier::opaque]
pub open spec fn component_definition_at(tokens: Seq<TokenView>, eof: Span, i: int) -> Parsed<
    ComponentDefinitionView<Span>,
> {
    match identifier_at(tokens, eof, i + 1) {
        Err(e) => Err(e),
        Ok((name, _)) => match optional_properties_definition_at(tokens, eof, i + 2) {
            Err(e) => Err(e),
            Ok((properties, after_properties)) => match optional_children_at(
                tokens,
                eof,
                after_properties,
            ) {
                Err(e) => Err(e),
                Ok((children, next)) => Ok(
                    (
                        ComponentDefinitionView {
                            span: span_of(tokens, i, next),
                            name,
                            properties,
                            children,
                        },
                        next,
                    ),
                ),
            },
        },
    }
}

/// An item of a module at `i`: a component definition where the keyword
/// `component` stands there, else a component.
#[verifier::opaque]
pub open spec fn item_at(tokens: Seq<TokenView>, eof: Span, i: int) -> Parsed<ModuleItemView<Span>> {
    if keyword_at(tokens, i, Keyword::Component) {
        match component_definition_at(tokens, eof, i) {
            Err(e) => Err(e),
            Ok((definition, next)) => Ok((ModuleItemView::ComponentDefinition(definition), next)),
        }
    } else {
        match component_at(tokens, eof, i) {
            Err(e) => Err(e),
            Ok((component, next)) => Ok((ModuleItemView::Component(component), next)),
        }
    }
}

/// The items of a module from `i` up to the end of the tokens.
#[verifier::opaque]
pub open spec fn items_from(
    tokens: Seq<TokenView>,
    eof: Span,
    i: int,
    acc: Seq<ModuleItemView<Span>>,
) -> Result<Seq<ModuleItemView<Span>>, ParserError>
    decreases tokens.len() - i,
{
    if i < 0 || i >= tokens.len() {
        Ok(acc)
    } else {
        match item_at(tokens, eof, i) {
            Err(e) => Err(e),
            Ok((item, next)) => {
                proof {
                    lemma_item_advances(tokens, eof, i);
                }
                items_from(tokens, eof, next, acc.push(item))
            },
        }
    }
}

/// The span of a module: the union of the spans of all tokens, or the span
/// of the end where there is no token.
pub open spec fn module_span(tokens: Seq<TokenView>, eof: Span) -> Span {
    if tokens.len() == 0 {
        eof
    } else {
        span_of(tokens, 0, tokens.len() as int)
    }
}

/// The module that a sequence of tokens stands for, or the first error.
#[verifier::opaque]
pub open spec fn parse_module(tokens: Seq<TokenView>, eof: Span) -> Result<
    ModuleView<Span>,
    ParserError,
> {
    match items_from(tokens, eof, 0, seq![]) {
        Err(e) => Err(e),
        Ok(items) => Ok(ModuleView { span: module_span(tokens, eof), items }),
    }
}

/// Whether what was read ends after `i` and within the tokens.
pub open spec fn advances<T>(result: Parsed<T>, tokens: Seq<TokenView>, i: int) -> bool {
    match result {
        Ok((_, next)) => i < next <= tokens.len(),
        Err(_) => true,
    }
}

/// Segments end after where they start.
pub proof fn lemma_segments_tail_advances(
    tokens: Seq<TokenView>,
    eof: Span,
    i: int,
    kind: InterpolationKind,
    acc: Seq<InterpolationSegmentView<Span>>,
)
    requires
        0 <= i,
    ensures
        advances(segments_tail(tokens, eof, i, kind, acc), tokens, i),
    decreases tokens.len() - i,
{
    reveal(identifier_at);
    reveal(expect_punctuator);
    reveal(literal_at);
    reveal(interpolation_at);
    reveal(segments_tail);
    if interpolation_at(tokens, eof, i) is Ok && literal_at(tokens, eof, i + 4, kind) is Ok {
        let (variable, _) = interpolation_at(tokens, eof, i)->Ok_0;
        let literal = literal_at(tokens, eof, i + 4, kind)->Ok_0;
        if punctuator_at(tokens, i + 5, Punctuator::Dollar) {
            lemma_segments_tail_advances(
                tokens,
                eof,
                i + 5,
                kind,
                acc.push(variable) + kept(literal),
            );
        }
    }
}

/// A literal ends after where it starts.
pub proof fn lemma_segments_advance(tokens: Seq<TokenView>, eof: Span, i: int, kind: InterpolationKind)
    requires
        0 <= i,
    ensures
        advances(segments_at(tokens, eof, i, kind), tokens, i),
{
    reveal(literal_at);
    reveal(segments_tail);
    reveal(segments_at);
    if literal_at(tokens, eof, i, kind) is Ok {
        if punctuator_at(tokens, i + 1, Punctuator::Dollar) {
            lemma_segments_tail_advances(
                tokens,
                eof,
                i + 1,
                kind,
                kept(literal_at(tokens, eof, i, kind)->Ok_0),
            );
        }
    }
}

/// A value ends after where it starts.
pub proof fn lemma_value_advances(tokens: Seq<TokenView>, eof: Span, i: int)
    requires
        0 <= i,
    ensures
        advances(value_at(tokens, eof, i), tokens, i),
{
    reveal(string_at);
    reveal(value_at);
    lemma_segments_advance(tokens, eof, i, InterpolationKind::String);
}

/// A property ends after where it starts.
pub proof fn lemma_property_advances(tokens: Seq<TokenView>, eof: Span, i: int)
    requires
        0 <= i,
    ensures
        advances(property_at(tokens, eof, i), tokens, i),
{
    reveal(identifier_at);
    reveal(value_at);
    reveal(property_at);
    lemma_value_advances(tokens, eof, i + 2);
}

/// The rest of a list of properties ends at a `]` that is not in front of
/// where it starts.
pub proof fn lemma_properties_rest_ends(
    tokens: Seq<TokenView>,
    eof: Span,
    i: int,
    acc: Seq<PropertyView<Span>>,
)
    requires
        0 <= i,
    ensures
        match properties_rest(tokens, eof, i, acc) {
            Ok((_, end)) => i <= end < tokens.len(),
            Err(_) => true,
        },
    decreases tokens.len() - i,
{
    reveal(identifier_at);
    reveal(value_at);
    reveal(property_at);
    reveal(properties_rest);
    if punctuator_at(tokens, i, Punctuator::Comma) && identifier_starts(tokens, i + 1) {
        lemma_property_advances(tokens, eof, i + 1);
        match property_at(tokens, eof, i + 1) {
            Ok((property, next)) => {
                lemma_properties_rest_ends(tokens, eof, next, acc.push(property));
            },
            Err(_) => {},
        }
    }
}

/// Properties end after where they start.
pub proof fn lemma_properties_advance(tokens: Seq<TokenView>, eof: Span, i: int)
    requires
        0 <= i,
        punctuator_at(tokens, i, Punctuator::LeftSquareBracket),
    ensures
        advances(properties_at(tokens, eof, i), tokens, i),
{
    reveal(identifier_at);
    reveal(expect_punctuator);
    reveal(string_at);
    reveal(value_at);
    reveal(property_at);
    reveal(properties_rest);
    reveal(properties_at);
    lemma_property_advances(tokens, eof, i + 1);
    lemma_value_advances(tokens, eof, i + 1);
    if identifier_starts(tokens, i + 1) {
        match property_at(tokens, eof, i + 1) {
            Ok((first, after)) => {
                lemma_properties_rest_ends(tokens, eof, after, seq![first]);
            },
            Err(_) => {},
        }
    } else if value_starts(tokens, i + 1) {
        match value_at(tokens, eof, i + 1) {
            Ok((value, after)) => {
                lemma_properties_rest_ends(tokens, eof, after, seq![]);
            },
            Err(_) => {},
        }
    }
}

/// A type ends after where it starts.
pub proof fn lemma_type_advances(tokens: Seq<TokenView>, eof: Span, i: int)
    requires
        0 <= i,
    ensures
        advances(type_at(tokens, eof, i), tokens, i),
{
    reveal(type_at);
    reveal(items_from);
    reveal(parse_module);
    reveal(parse_module);
}

/// A property declaration ends after where it starts.
pub proof fn lemma_property_definition_advances(tokens: Seq<TokenView>, eof: Span, i: int)
    requires
        0 <= i,
    ensures
        advances(property_definition_at(tokens, eof, i), tokens, i),
        advances(named_definition_at(tokens, eof, i), tokens, i),
{
    reveal(identifier_at);
    reveal(expect_punctuator);
    reveal(value_at);
    reveal(type_at);
    reveal(named_definition_at);
    reveal(property_definition_at);
    lemma_named_definition_advances(tokens, eof, i);
    lemma_named_definition_advances(tokens, eof, i + 1);
}

/// The declaration of a property ends after where it starts.
pub proof fn lemma_named_definition_advances(tokens: Seq<TokenView>, eof: Span, i: int)
    requires
        0 <= i,
    ensures
        advances(named_definition_at(tokens, eof, i), tokens, i),
{
    reveal(identifier_at);
    reveal(expect_punctuator);
    reveal(value_at);
    reveal(type_at);
    reveal(named_definition_at);
    lemma_type_advances(tokens, eof, i + 2);
    match type_at(tokens, eof, i + 2) {
        Ok((ty, after_type)) => {
            lemma_value_advances(tokens, eof, after_type + 1);
        },
        Err(_) => {},
    }
}

/// The rest of a list of property declarations ends at a `]` that is not in
/// front of where it starts.
pub proof fn lemma_definitions_rest_ends(
    tokens: Seq<TokenView>,
    eof: Span,
    i: int,
    acc: Seq<PropertyDefinitionView<Span>>,
)
    requires
        0 <= i,
    ensures
        match definitions_rest(tokens, eof, i, acc) {
            Ok((_, end)) => i <= end < tokens.len(),
            Err(_) => true,
        },
    decreases tokens.len() - i,
{
    reveal(identifier_at);
    reveal(named_definition_at);
    reveal(property_definition_at);
    reveal(definitions_rest);
    if punctuator_at(tokens, i, Punctuator::Comma) {
        lemma_property_definition_advances(tokens, eof, i + 1);
        match property_definition_at(tokens, eof, i + 1) {
            Ok((definition, next)) => {
                lemma_definitions_rest_ends(tokens, eof, next, acc.push(definition));
            },
            Err(_) => {},
        }
    }
}

/// Property declarations end after where they start.
pub proof fn lemma_properties_definition_advance(tokens: Seq<TokenView>, eof: Span, i: int)
    requires
        0 <= i,
        punctuator_at(tokens, i, Punctuator::LeftSquareBracket),
    ensures
        advances(properties_definition_at(tokens, eof, i), tokens, i),
{
    reveal(identifier_at);
    reveal(named_definition_at);
    reveal(property_definition_at);
    reveal(definitions_rest);
    reveal(properties_definition_at);
    lemma_property_definition_advances(tokens, eof, i + 1);
    match property_definition_at(tokens, eof, i + 1) {
        Ok((first, after)) => {
            lemma_definitions_rest_ends(tokens, eof, after, seq![first]);
        },
        Err(_) => {},
    }
}

/// Whether what was read ends at `i` or after it, and within the tokens
/// unless nothing was read.
pub open spec fn stays<T>(result: Parsed<T>, tokens: Seq<TokenView>, i: int) -> bool {
    match result {
        Ok((_, next)) => i <= next && (next <= tokens.len() || next == i),
        Err(_) => true,
    }
}

/// Optional properties and an optional text end not in front of where they
/// start.
pub proof fn lemma_optional_parts_stay(tokens: Seq<TokenView>, eof: Span, i: int)
    requires
        0 <= i,
    ensures
        stays(optional_properties_at(tokens, eof, i), tokens, i),
        stays(optional_text_at(tokens, eof, i), tokens, i),
        stays(optional_properties_definition_at(tokens, eof, i), tokens, i),
{
    reveal(text_at);
    reveal(properties_at);
    reveal(optional_properties_at);
    reveal(optional_text_at);
    reveal(properties_definition_at);
    reveal(optional_properties_definition_at);
    if punctuator_at(tokens, i, Punctuator::LeftSquareBracket) {
        lemma_properties_advance(tokens, eof, i);
        lemma_properties_definition_advance(tokens, eof, i);
    }
    lemma_segments_advance(tokens, eof, i, InterpolationKind::Text);
}

/// A component ends after where it starts, its children end at a `}`, and
/// optional children end not in front of where they start.
pub proof fn lemma_component_advances(tokens: Seq<TokenView>, eof: Span, i: int)
    requires
        0 <= i,
    ensures
        advances(component_at(tokens, eof, i), tokens, i),
    decreases tokens.len() - i, 0int,
{
    reveal(text_at);
    reveal(properties_at);
    reveal(component_name_at);
    reveal(optional_properties_at);
    reveal(optional_text_at);
    reveal(component_at);
    reveal(optional_children_at);
    reveal(children_rest);
    if component_name_at(tokens, eof, i) is Ok {
        lemma_optional_parts_stay(tokens, eof, i + 1);
        match optional_properties_at(tokens, eof, i + 1) {
            Ok((properties, after_properties)) => {
                lemma_optional_parts_stay(tokens, eof, after_properties);
                match optional_text_at(tokens, eof, after_properties) {
                    Ok((early_text, after_text)) => {
                        lemma_optional_children_stay(tokens, eof, after_text);
                        match optional_children_at(tokens, eof, after_text) {
                            Ok((children, after_children)) => {
                                lemma_optional_parts_stay(tokens, eof, after_children);
                            },
                            Err(_) => {},
                        }
                    },
                    Err(_) => {},
                }
            },
            Err(_) => {},
        }
    }
}

/// Optional children end not in front of where they start.
pub proof fn lemma_optional_children_stay(tokens: Seq<TokenView>, eof: Span, i: int)
    requires
        0 < i,
    ensures
        stays(optional_children_at(tokens, eof, i), tokens, i),
    decreases tokens.len() - i, 2int,
{
    reveal(component_at);
    reveal(optional_children_at);
    reveal(children_rest);
    if punctuator_at(tokens, i, Punctuator::LeftCurlyBracket) {
        lemma_children_rest_ends(tokens, eof, i + 1, seq![]);
    }
}

/// The children of a component end at a `}` that is not in front of where
/// they start.
pub proof fn lemma_children_rest_ends(
    tokens: Seq<TokenView>,
    eof: Span,
    i: int,
    acc: Seq<ComponentView<Span>>,
)
    requires
        0 <= i,
    ensures
        match children_rest(tokens, eof, i, acc) {
            Ok((_, end)) => i <= end < tokens.len(),
            Err(_) => true,
        },
    decreases tokens.len() - i, 1int,
{
    reveal(component_name_at);
    reveal(optional_properties_at);
    reveal(optional_text_at);
    reveal(component_at);
    reveal(optional_children_at);
    reveal(children_rest);
    if !punctuator_at(tokens, i, Punctuator::RightCurlyBracket) && component_starts(tokens, i) {
        lemma_component_advances(tokens, eof, i);
        match component_at(tokens, eof, i) {
            Ok((component, next)) => {
                lemma_children_rest_ends(tokens, eof, next, acc.push(component));
            },
            Err(_) => {},
        }
    }
}

/// An item of a module ends after where it starts.
pub proof fn lemma_item_advances(tokens: Seq<TokenView>, eof: Span, i: int)
    requires
        0 <= i,
    ensures
        advances(item_at(tokens, eof, i), tokens, i),
{
    reveal(identifier_at);
    reveal(component_at);
    reveal(optional_children_at);
    reveal(children_rest);
    reveal(properties_definition_at);
    reveal(optional_properties_definition_at);
    reveal(component_definition_at);
    reveal(item_at);
    lemma_component_advances(tokens, eof, i);
    if keyword_at(tokens, i, Keyword::Component) {
        lemma_optional_parts_stay(tokens, eof, i + 2);
        match optional_properties_definition_at(tokens, eof, i + 2) {
            Ok((properties, after_properties)) => {
                lemma_optional_children_stay(tokens, eof, after_properties);
            },
            Err(_) => {},
        }
    }
}

} // verus!
