//! What holds of everything that the parser reads.

use vstd::prelude::*;
use crate::ast::{InterpolationSegmentKindView, InterpolationSegmentView};
use crate::lexer_model::InterpolationKind;
use crate::parser_model::{
    component_name_at, lemma_optional_parts_stay, optional_properties_at, optional_text_at,
    component_at, lemma_component_advances, span_of, interpolation_at, is_empty_literal, kept, literal_at, literal_content, punctuator_at,
    segments_at, segments_tail,
};
use crate::span::{lemma_union_associative, Span};
use crate::token::{Punctuator, TokenView};

verus! {

/// The number of interpolated variables among the segments.
pub open spec fn variable_count(segments: Seq<InterpolationSegmentView<Span>>) -> int
    decreases segments.len(),
{
    if segments.len() == 0 {
        0
    } else if segments.last().kind is Variable {
        variable_count(segments.drop_last()) + 1
    } else {
        variable_count(segments.drop_last())
    }
}

/// The number of literal segments among the segments.
pub open spec fn literal_count(segments: Seq<InterpolationSegmentView<Span>>) -> int
    decreases segments.len(),
{
    if segments.len() == 0 {
        0
    } else if segments.last().kind is Literal {
        literal_count(segments.drop_last()) + 1
    } else {
        literal_count(segments.drop_last())
    }
}

/// Whether no segment is an empty literal.
pub open spec fn no_empty_literal(segments: Seq<InterpolationSegmentView<Span>>) -> bool {
    forall|k: int| 0 <= k < segments.len() ==> !is_empty_literal(#[trigger] segments[k])
}

/// Whether no literal segment follows a literal segment.
pub open spec fn literals_apart(segments: Seq<InterpolationSegmentView<Span>>) -> bool {
    forall|k: int|
        0 <= k < segments.len() - 1 ==> !((#[trigger] segments[k]).kind is Literal && segments[k
            + 1].kind is Literal)
}

/// The content of the segment of a literal at `i`.
pub open spec fn content_at(tokens: Seq<TokenView>, i: int, kind: InterpolationKind) -> Seq<char> {
    match literal_content(tokens, i, kind) {
        Some((content, _)) => content,
        None => seq![],
    }
}

/// One more segment counts once, as a variable or as a literal.
proof fn lemma_count_push(
    segments: Seq<InterpolationSegmentView<Span>>,
    segment: InterpolationSegmentView<Span>,
)
    ensures
        variable_count(segments.push(segment)) == variable_count(segments) + (if segment.kind
            is Variable {
            1int
        } else {
            0int
        }),
        literal_count(segments.push(segment)) == literal_count(segments) + (if segment.kind
            is Literal {
            1int
        } else {
            0int
        }),
{
    assert(segments.push(segment).drop_last() =~= segments);
}

/// The rest of the segments of a literal, read over `n` interpolations,
/// adds `n` variables and at most `n` literal segments, none of them empty,
/// and no literal segment behind another.
proof fn lemma_segments_tail_folded(
    tokens: Seq<TokenView>,
    eof: Span,
    i: int,
    kind: InterpolationKind,
    acc: Seq<InterpolationSegmentView<Span>>,
)
    requires
        0 <= i,
        no_empty_literal(acc),
        literals_apart(acc),
    ensures
        match segments_tail(tokens, eof, i, kind, acc) {
            Err(_) => true,
            Ok((segments, next)) => {
                &&& next > i
                &&& (next - i) % 5 == 0
                &&& variable_count(segments) == variable_count(acc) + (next - i) / 5
                &&& literal_count(segments) <= literal_count(acc) + (next - i) / 5
                &&& literal_count(segments) >= literal_count(acc)
                &&& no_empty_literal(segments)
                &&& literals_apart(segments)
            },
        },
    decreases tokens.len() - i,
{
    reveal(segments_tail);
    reveal(interpolation_at);
    reveal(literal_at);
    reveal(crate::parser_model::expect_punctuator);
    reveal(crate::parser_model::identifier_at);
    if interpolation_at(tokens, eof, i) is Ok && literal_at(tokens, eof, i + 4, kind) is Ok {
        let (variable, _) = interpolation_at(tokens, eof, i)->Ok_0;
        let literal = literal_at(tokens, eof, i + 4, kind)->Ok_0;
        let with_variable = acc.push(variable);
        let all = with_variable + kept(literal);
        lemma_count_push(acc, variable);
        assert(variable.kind is Variable);
        assert(literal.kind is Literal);
        if is_empty_literal(literal) {
            assert(all =~= with_variable);
        } else {
            assert(all =~= with_variable.push(literal));
            lemma_count_push(with_variable, literal);
        }
        assert(no_empty_literal(all));
        assert(literals_apart(all));
        if punctuator_at(tokens, i + 5, Punctuator::Dollar) {
            lemma_segments_tail_folded(tokens, eof, i + 5, kind, all);
        }
    }
}

/// A literal without interpolations is read as exactly one literal segment
/// that holds the content of the literal. A literal with `n` interpolations
/// is read as exactly `n` variables with at most `n + 1` literal segments
/// around and between them: no literal segment follows another, and none is
/// empty.
pub proof fn lemma_segments_folded(tokens: Seq<TokenView>, eof: Span, i: int, kind: InterpolationKind)
    requires
        0 <= i,
    ensures
        match segments_at(tokens, eof, i, kind) {
            Err(_) => true,
            Ok((segments, next)) => {
                let n = (next - i - 1) / 5;
                &&& next == i + 1 + 5 * n
                &&& n >= 0
                &&& variable_count(segments) == n
                &&& literal_count(segments) <= n + 1
                &&& literals_apart(segments)
                &&& n == 0 ==> segments == seq![
                    InterpolationSegmentView {
                        span: tokens[i].1,
                        kind: InterpolationSegmentKindView::Literal(
                            content_at(tokens, i, kind),
                        ),
                    },
                ]
                &&& n > 0 ==> no_empty_literal(segments)
            },
        },
{
    reveal(segments_at);
    reveal(literal_at);
    if literal_at(tokens, eof, i, kind) is Ok {
        let first = literal_at(tokens, eof, i, kind)->Ok_0;
        let empty = Seq::<InterpolationSegmentView<Span>>::empty();
        if punctuator_at(tokens, i + 1, Punctuator::Dollar) {
            if is_empty_literal(first) {
                assert(kept(first) =~= empty);
            } else {
                assert(kept(first) =~= empty.push(first));
                lemma_count_push(empty, first);
            }
            lemma_segments_tail_folded(tokens, eof, i + 1, kind, kept(first));
        } else {
            assert(seq![first] =~= empty.push(first));
            lemma_count_push(empty, first);
        }
    }
}

/// The union of the spans of a run of tokens is the union of the spans of
/// its two parts, wherever it is cut: spans can be gathered piece by piece.
pub proof fn lemma_span_of_parts(tokens: Seq<TokenView>, start: int, middle: int, end: int)
    requires
        start < middle < end,
    ensures
        span_of(tokens, start, end) == span_of(tokens, start, middle).spec_union(
            span_of(tokens, middle, end),
        ),
    decreases end - middle,
{
    if end - middle > 1 {
        lemma_span_of_parts(tokens, start, middle, end - 1);
        lemma_union_associative(
            span_of(tokens, start, middle),
            span_of(tokens, middle, end - 1),
            tokens[end - 1].1,
        );
    }
}

/// Where the name of a component is read, its properties and its text end
/// after the name and within the tokens: the children of a component are
/// always looked for.
pub proof fn lemma_children_follow_name(tokens: Seq<TokenView>, eof: Span, i: int)
    requires
        0 <= i,
        component_name_at(tokens, eof, i) is Ok,
    ensures
        match optional_properties_at(tokens, eof, i + 1) {
            Err(_) => true,
            Ok((_, after_properties)) => match optional_text_at(tokens, eof, after_properties) {
                Err(_) => true,
                Ok((_, after_text)) => i < after_text <= tokens.len(),
            },
        },
{
    reveal(component_name_at);
    lemma_optional_parts_stay(tokens, eof, i + 1);
    match optional_properties_at(tokens, eof, i + 1) {
        Ok((_, after_properties)) => {
            lemma_optional_parts_stay(tokens, eof, after_properties);
        },
        Err(_) => {},
    }
}

/// A component that is read ends after its name, within the tokens: the
/// parser always moves on.
pub proof fn lemma_component_moves_on(tokens: Seq<TokenView>, eof: Span, i: int)
    requires
        0 <= i,
    ensures
        match component_at(tokens, eof, i) {
            Ok((_, next)) => i < next <= tokens.len(),
            Err(_) => true,
        },
{
    lemma_component_advances(tokens, eof, i);
}

} // verus!
