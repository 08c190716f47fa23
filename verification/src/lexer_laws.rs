//! What holds of the lexemes of every text.

use vstd::prelude::*;
use crate::chars::{is_identifier_head, is_integer_head, is_newline, punctuator_of};
use crate::lexer::MAX_SOURCE_LENGTH;
use crate::lexer_model::{
    column_at, lemma_position_bounds, lex_tokens, line_at, position_at, boolean_of_word, delimiter,
    end_lexemes, identifier_end, integer_token, keyword_of_word, lemma_digits_end_bounds,
    lemma_identifier_end_bounds, lemma_scan_literal_bounds, lemma_step_progress, lex_step, lexemes,
    lexemes_from, mode_rank, modes_fit, scan_literal, step_default, top_mode, type_of_word,
    word_token, InterpolationKind, InterpolationMode, Lexeme,
};
use crate::token::{keyword_text, TokenKindView};

verus! {

/// Whether a literal is what a scan of the text gives, from the start of
/// the lexeme or from the character after its opening character.
pub open spec fn literal_spelled(
    src: Seq<char>,
    lexeme: Lexeme,
    kind: InterpolationKind,
    content: Seq<char>,
    is_closed: bool,
) -> bool {
    exists|from: int|
        {
            &&& (from == lexeme.start || from == lexeme.start + 1)
            &&& (#[trigger] scan_literal(src, from, delimiter(kind))).content == content
            &&& scan_literal(src, from, delimiter(kind)).closed == is_closed
            &&& scan_literal(src, from, delimiter(kind)).end == lexeme.end
        }
}

/// Whether the content of a lexeme is what the text holds between its
/// offsets: the name of an identifier is that part of the text, a keyword,
/// a type or a boolean is the word that stands there, an integer is the
/// number that stands there, a punctuator is the character that stands
/// there, and a literal is what a scan of that part gives.
pub open spec fn spelled(src: Seq<char>, lexeme: Lexeme) -> bool {
    let part = src.subrange(lexeme.start, lexeme.end);
    match lexeme.kind {
        TokenKindView::Invalid => lexeme.end == lexeme.start + 1 || integer_token(part)
            is Invalid,
        TokenKindView::Punctuator(p) => lexeme.end == lexeme.start + 1 && punctuator_of(
            src[lexeme.start],
        ) == Some(p),
        TokenKindView::Keyword(k) => part == keyword_text(k),
        TokenKindView::Type(t) => type_of_word(part) == Some(t),
        TokenKindView::Identifier(name) => name == part,
        TokenKindView::BooleanLiteral(b) => boolean_of_word(part) == Some(b),
        TokenKindView::IntegerLiteral(n) => integer_token(part) == TokenKindView::IntegerLiteral(n),
        TokenKindView::StringLiteral { content, is_closed } => literal_spelled(
            src,
            lexeme,
            InterpolationKind::String,
            content,
            is_closed,
        ),
        TokenKindView::Text { content, is_closed } => literal_spelled(
            src,
            lexeme,
            InterpolationKind::Text,
            content,
            is_closed,
        ),
    }
}

/// Whether the lexemes lie between `from` and `upto`, each one spelled by
/// the text, in the order of the text and without overlap.
pub open spec fn in_order(src: Seq<char>, list: Seq<Lexeme>, from: int, upto: int) -> bool {
    &&& forall|k: int|
        0 <= k < list.len() ==> from <= (#[trigger] list[k]).start <= list[k].end <= upto
    &&& forall|k: int| 0 <= k < list.len() ==> spelled(src, #[trigger] list[k])
    &&& forall|k: int| 0 <= k < list.len() - 1 ==> (#[trigger] list[k]).end <= list[k + 1].start
}

/// A word that is a keyword is spelled as that keyword.
proof fn lemma_word_spelled(src: Seq<char>, start: int, end: int)
    requires
        0 <= start < end <= src.len(),
    ensures
        spelled(src, Lexeme { kind: word_token(src.subrange(start, end)), start, end }),
{
    let word = src.subrange(start, end);
    if type_of_word(word) is Some {
    } else if keyword_of_word(word) is Some {
    } else if boolean_of_word(word) is Some {
    } else {
    }
}

/// The lexemes of a step outside of literals lie within the step and are
/// spelled by the text.
proof fn lemma_default_in_order(
    src: Seq<char>,
    i: int,
    modes: Seq<InterpolationMode>,
    in_interpolation: bool,
)
    requires
        0 <= i < src.len(),
    ensures
        ({
            let step = step_default(src, i, modes, in_interpolation);
            in_order(src, step.lexemes, i, step.next)
        }),
{
    let c = src[i];
    let step = step_default(src, i, modes, in_interpolation);
    if c == ' ' || c == '\t' {
    } else if is_newline(c) {
    } else if c == '/' {
    } else if c == '(' {
        lemma_scan_literal_bounds(src, i + 1, ')');
        let scan = scan_literal(src, i + 1, ')');
        assert(literal_spelled(
            src,
            step.lexemes[0],
            InterpolationKind::Text,
            scan.content,
            scan.closed,
        ));
    } else if c == '"' {
        lemma_scan_literal_bounds(src, i + 1, '"');
        let scan = scan_literal(src, i + 1, '"');
        assert(literal_spelled(
            src,
            step.lexemes[0],
            InterpolationKind::String,
            scan.content,
            scan.closed,
        ));
    } else if is_integer_head(c) {
        lemma_digits_end_bounds(src, i + 1);
    } else if punctuator_of(c) is Some {
    } else if is_identifier_head(c) {
        lemma_identifier_end_bounds(src, i + 1);
        lemma_word_spelled(src, i, identifier_end(src, i + 1));
    } else {
    }
}

/// The lexemes of a step lie within the step, in order, and are spelled by
/// the text.
proof fn lemma_step_in_order(src: Seq<char>, i: int, modes: Seq<InterpolationMode>)
    requires
        0 <= i < src.len(),
        modes_fit(src, i, modes),
    ensures
        ({
            let step = lex_step(src, i, modes);
            in_order(src, step.lexemes, i, step.next)
        }),
{
    let step = lex_step(src, i, modes);
    match top_mode(modes) {
        Some(InterpolationMode::Start(kind)) => {},
        Some(InterpolationMode::Interpolation(kind)) => {
            if src[i] != '}' {
                lemma_default_in_order(src, i, modes, true);
            }
        },
        Some(InterpolationMode::Literal(kind)) => {
            lemma_scan_literal_bounds(src, i, delimiter(kind));
            let scan = scan_literal(src, i, delimiter(kind));
            assert(literal_spelled(src, step.lexemes[0], kind, scan.content, scan.closed));
        },
        None => {
            lemma_default_in_order(src, i, modes, false);
        },
    }
}

/// Lexemes in order, followed by lexemes in order that start after them,
/// are in order.
proof fn lemma_in_order_joined(
    src: Seq<char>,
    first: Seq<Lexeme>,
    second: Seq<Lexeme>,
    from: int,
    middle: int,
    upto: int,
)
    requires
        in_order(src, first, from, middle),
        in_order(src, second, middle, upto),
        from <= middle <= upto,
    ensures
        in_order(src, first + second, from, upto),
{
    let all = first + second;
    assert forall|k: int| 0 <= k < all.len() implies from <= (#[trigger] all[k]).start
        <= all[k].end <= upto && spelled(src, all[k]) by {
        if k < first.len() {
            assert(all[k] == first[k]);
        } else {
            assert(all[k] == second[k - first.len()]);
        }
    }
    assert forall|k: int| 0 <= k < all.len() - 1 implies (#[trigger] all[k]).end <= all[k
        + 1].start by {
        if k + 1 < first.len() {
            assert(all[k] == first[k]);
            assert(all[k + 1] == first[k + 1]);
        } else if k < first.len() {
            assert(all[k] == first[k]);
            assert(all[k + 1] == second[0]);
        } else {
            assert(all[k] == second[k - first.len()]);
            assert(all[k + 1] == second[k + 1 - first.len()]);
        }
    }
}

/// The lexemes from an offset on lie between that offset and the end of the
/// text, in order, and are spelled by the text.
proof fn lemma_lexemes_from_in_order(src: Seq<char>, i: int, modes: Seq<InterpolationMode>)
    requires
        0 <= i <= src.len(),
    ensures
        in_order(src, lexemes_from(src, i, modes), i, src.len() as int),
    decreases src.len() - i, mode_rank(modes),
{
    if 0 <= i < src.len() && modes_fit(src, i, modes) {
        let step = lex_step(src, i, modes);
        lemma_step_progress(src, i, modes);
        lemma_step_in_order(src, i, modes);
        lemma_lexemes_from_in_order(src, step.next, step.modes);
        lemma_in_order_joined(
            src,
            step.lexemes,
            lexemes_from(src, step.next, step.modes),
            i,
            step.next,
            src.len() as int,
        );
    } else {
        match top_mode(modes) {
            Some(InterpolationMode::Literal(kind)) => {
                if i == src.len() {
                    let last = end_lexemes(src, modes)[0];
                    assert(scan_literal(src, i, delimiter(kind)).content =~= Seq::<char>::empty());
                    assert(literal_spelled(src, last, kind, Seq::<char>::empty(), false));
                } else {
                    lemma_end_lexemes_unreached(src, i, modes);
                }
            },
            _ => {},
        }
    }
}

/// Where the stack does not fit the offset, it was not reached by the lexer:
/// the lexemes at such a place are those of the end of the text, which are
/// in order as well.
proof fn lemma_end_lexemes_unreached(src: Seq<char>, i: int, modes: Seq<InterpolationMode>)
    requires
        0 <= i < src.len(),
        !modes_fit(src, i, modes),
        top_mode(modes) is Some,
        top_mode(modes)->0 is Literal,
    ensures
        in_order(src, end_lexemes(src, modes), i, src.len() as int),
{
    let kind = top_mode(modes)->0->Literal_0;
    let last = end_lexemes(src, modes)[0];
    assert(scan_literal(src, src.len() as int, delimiter(kind)).content =~= Seq::<char>::empty());
    assert(literal_spelled(src, last, kind, Seq::<char>::empty(), false));
}

/// The lexemes of a text follow the text: each lies within the text, each
/// starts where the one before it ended or later, and the content of each is
/// what the text holds between its offsets.
pub proof fn lemma_lexemes_follow_text(src: Seq<char>)
    ensures
        in_order(src, lexemes(src), 0, src.len() as int),
{
    lemma_lexemes_from_in_order(src, 0, seq![]);
}

/// The line never gets smaller from an offset to a later one, and on one
/// line the column grows with the offset.
pub proof fn lemma_position_grows(src: Seq<char>, a: int, b: int)
    requires
        0 <= a <= b,
    ensures
        line_at(src, a) <= line_at(src, b),
        line_at(src, a) == line_at(src, b) ==> column_at(src, a) + (b - a) == column_at(src, b),
    decreases b - a,
{
    if a < b {
        lemma_position_grows(src, a, b - 1);
    }
}

/// In a text that the lexer takes, the position of an offset comes before
/// the position of every later offset.
pub proof fn lemma_positions_in_order(src: Seq<char>, a: int, b: int)
    requires
        src.len() <= MAX_SOURCE_LENGTH,
        0 <= a <= b <= src.len(),
    ensures
        position_at(src, a).at_most(position_at(src, b)),
{
    lemma_position_grows(src, a, b);
    lemma_position_bounds(src, a);
    lemma_position_bounds(src, b);
}

/// The tokens of a text that the lexer takes come in the order of the text:
/// the span of each starts before it ends, and ends before the span of the
/// next one starts.
pub proof fn lemma_tokens_in_source_order(src: Seq<char>)
    requires
        src.len() <= MAX_SOURCE_LENGTH,
    ensures
        forall|k: int|
            0 <= k < lex_tokens(src).len() ==> (#[trigger] lex_tokens(src)[k]).1.start.at_most(
                lex_tokens(src)[k].1.end,
            ),
        forall|k: int|
            0 <= k < lex_tokens(src).len() - 1 ==> (#[trigger] lex_tokens(src)[k]).1.end.at_most(
                lex_tokens(src)[k + 1].1.start,
            ),
{
    lemma_lexemes_follow_text(src);
    let list = lexemes(src);
    assert forall|k: int| 0 <= k < lex_tokens(src).len() implies (#[trigger] lex_tokens(
        src,
    )[k]).1.start.at_most(lex_tokens(src)[k].1.end) by {
        lemma_positions_in_order(src, list[k].start, list[k].end);
    }
    assert forall|k: int| 0 <= k < lex_tokens(src).len() - 1 implies (#[trigger] lex_tokens(
        src,
    )[k]).1.end.at_most(lex_tokens(src)[k + 1].1.start) by {
        assert(list[k].end <= list[k + 1].start);
        lemma_positions_in_order(src, list[k].end, list[k + 1].start);
    }
}

} // verus!
