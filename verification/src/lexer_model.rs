//! What the lexer computes, as functions on sequences of characters.
//!
//! A lexeme is a token with the offsets of its first character and of the
//! character after its last. Line and column are a function of the offset.

use vstd::prelude::*;
use crate::chars::{is_blank, is_digit, is_identifier_head, is_identifier_tail, is_integer_head, is_newline, punctuator_of};
use crate::span::{Position, Span};
use crate::token::{Keyword, Punctuator, TokenKindView, TokenView, Type};

verus! {

/// The kind of literal that an interpolation belongs to.
#[derive(Debug, Clone, Copy, PartialEq, Eq, Structural)]
pub enum InterpolationKind {
    Text,
    String,
}

/// Where the lexer stands inside a literal with interpolations.
#[derive(Debug, Clone, Copy, PartialEq, Eq, Structural)]
pub enum InterpolationMode {
    /// At the `${` that opens an interpolation.
    Start(InterpolationKind),
    /// Between `${` and the matching `}`.
    Interpolation(InterpolationKind),
    /// After the `}`, in the rest of the literal.
    Literal(InterpolationKind),
}

/// A token with the offsets that it covers.
pub struct Lexeme {
    pub kind: TokenKindView,
    pub start: int,
    pub end: int,
}

/// The outcome of one step of the lexer.
pub struct Step {
    /// The lexemes that the step produced.
    pub lexemes: Seq<Lexeme>,
    /// The offset after the step.
    pub next: int,
    /// The stack of modes after the step.
    pub modes: Seq<InterpolationMode>,
}

/// The outcome of scanning a literal.
pub struct LiteralScan {
    /// The characters of the literal.
    pub content: Seq<char>,
    /// The offset at which the scan stopped.
    pub end: int,
    /// Whether the closing character or an interpolation was found.
    pub closed: bool,
    /// Whether the scan stopped in front of `${`.
    pub interpolation: bool,
}

/// Whether the character at `k` ends a line: a line feed, or a carriage
/// return that no line feed follows.
pub open spec fn breaks_line(src: Seq<char>, k: int) -> bool {
    src[k] == '\n' || (src[k] == '\r' && !(k + 1 < src.len() && src[k + 1] == '\n'))
}

/// The line of the offset `k`, counted from one.
pub open spec fn line_at(src: Seq<char>, k: int) -> int
    decreases k,
{
    if k <= 0 {
        1
    } else if breaks_line(src, k - 1) {
        line_at(src, k - 1) + 1
    } else {
        line_at(src, k - 1)
    }
}

/// The column of the offset `k`, counted from one.
pub open spec fn column_at(src: Seq<char>, k: int) -> int
    decreases k,
{
    if k <= 0 {
        1
    } else if breaks_line(src, k - 1) {
        1
    } else {
        column_at(src, k - 1) + 1
    }
}

/// The position of the offset `k`.
pub open spec fn position_at(src: Seq<char>, k: int) -> Position {
    Position { line: line_at(src, k) as u32, column: column_at(src, k) as u32 }
}

/// The span from the offset `start` up to the offset `end`.
pub open spec fn span_at(src: Seq<char>, start: int, end: int) -> Span {
    Span { start: position_at(src, start), end: position_at(src, end) }
}

/// The token of a lexeme, with its span.
pub open spec fn token_of(src: Seq<char>, lexeme: Lexeme) -> TokenView {
    (lexeme.kind, span_at(src, lexeme.start, lexeme.end))
}

/// The tokens of a sequence of lexemes.
pub open spec fn tokens_of(src: Seq<char>, lexemes: Seq<Lexeme>) -> Seq<TokenView> {
    Seq::new(lexemes.len(), |k: int| token_of(src, lexemes[k]))
}

/// The character that closes a literal.
pub open spec fn delimiter(kind: InterpolationKind) -> char {
    match kind {
        InterpolationKind::Text => ')',
        InterpolationKind::String => '"',
    }
}

/// The first offset from `i` on that holds no space or tab.
pub open spec fn blank_end(src: Seq<char>, i: int) -> int
    decreases src.len() - i,
{
    if i < src.len() && is_blank(src[i]) {
        blank_end(src, i + 1)
    } else {
        i
    }
}

/// The first offset from `i` on that holds no digit.
pub open spec fn digits_end(src: Seq<char>, i: int) -> int
    decreases src.len() - i,
{
    if i < src.len() && is_digit(src[i]) {
        digits_end(src, i + 1)
    } else {
        i
    }
}

/// The first offset from `i` on that holds no character of an identifier.
pub open spec fn identifier_end(src: Seq<char>, i: int) -> int
    decreases src.len() - i,
{
    if i < src.len() && is_identifier_tail(src[i]) {
        identifier_end(src, i + 1)
    } else {
        i
    }
}

/// The end of a comment that runs from `i`: the next line ending, the next
/// `}` where the comment stands in an interpolation, or the end of the text.
pub open spec fn comment_end(src: Seq<char>, i: int, in_interpolation: bool) -> int
    decreases src.len() - i,
{
    if i < src.len() && !is_newline(src[i]) && !(in_interpolation && src[i] == '}') {
        comment_end(src, i + 1, in_interpolation)
    } else {
        i
    }
}

/// The offset after the line ending that starts at `i`: two characters for
/// a carriage return with a line feed, else one.
pub open spec fn line_ending_end(src: Seq<char>, i: int) -> int {
    if src[i] == '\r' && i + 1 < src.len() && src[i + 1] == '\n' {
        i + 2
    } else {
        i + 1
    }
}

/// The number that a sequence of digits denotes.
pub open spec fn digits_value(digits: Seq<char>) -> int
    decreases digits.len(),
{
    if digits.len() == 0 {
        0
    } else {
        digits_value(digits.drop_last()) * 10 + (digits.last() as int - '0' as int)
    }
}

/// The token of an optional minus sign and digits: an integer literal where
/// there is a digit and the number fits, else an invalid token.
pub open spec fn integer_token(text: Seq<char>) -> TokenKindView {
    let negative = text.len() > 0 && text[0] == '-';
    let digits = if negative {
        text.drop_first()
    } else {
        text
    };
    let value = if negative {
        -digits_value(digits)
    } else {
        digits_value(digits)
    };
    if digits.len() > 0 && i64::MIN <= value <= i64::MAX {
        TokenKindView::IntegerLiteral(value as i64)
    } else {
        TokenKindView::Invalid
    }
}

/// The type that a word names, if it names one.
pub open spec fn type_of_word(word: Seq<char>) -> Option<Type> {
    if word == "string"@ {
        Some(Type::String)
    } else if word == "int"@ || word == "integer"@ {
        Some(Type::Integer)
    } else if word == "bool"@ {
        Some(Type::Bool)
    } else if word == "slot"@ {
        Some(Type::Slot)
    } else {
        None
    }
}

/// The keyword that a word is, if it is one.
pub open spec fn keyword_of_word(word: Seq<char>) -> Option<Keyword> {
    if word == "component"@ {
        Some(Keyword::Component)
    } else if word == "default"@ {
        Some(Keyword::Default)
    } else if word == "text"@ {
        Some(Keyword::Text)
    } else {
        None
    }
}

/// The boolean that a word denotes, if it denotes one.
pub open spec fn boolean_of_word(word: Seq<char>) -> Option<bool> {
    if word == "true"@ {
        Some(true)
    } else if word == "false"@ {
        Some(false)
    } else {
        None
    }
}

/// The token of a word: a type name first, then a keyword, then a boolean
/// literal, else an identifier.
pub open spec fn word_token(word: Seq<char>) -> TokenKindView {
    if let Some(ty) = type_of_word(word) {
        TokenKindView::Type(ty)
    } else if let Some(keyword) = keyword_of_word(word) {
        TokenKindView::Keyword(keyword)
    } else if let Some(value) = boolean_of_word(word) {
        TokenKindView::BooleanLiteral(value)
    } else {
        TokenKindView::Identifier(word)
    }
}

/// Scans a literal from `i`, after its opening character or after an
/// interpolation, up to the closing character `delim`.
///
/// A line ending with the spaces and tabs after it counts as one space,
/// unless the closing character, another line ending or the end of the text
/// follows. A backslash in front of `$` or of the closing character gives
/// that character. The scan stops in front of `${`.
pub open spec fn scan_literal(src: Seq<char>, i: int, delim: char) -> LiteralScan
    decreases src.len() - i,
{
    if i < 0 || i >= src.len() {
        LiteralScan { content: seq![], end: i, closed: false, interpolation: false }
    } else if src[i] == delim {
        LiteralScan { content: seq![], end: i + 1, closed: true, interpolation: false }
    } else if is_newline(src[i]) {
        let after = literal_line_end(src, i);
        proof {
            lemma_blank_end_bounds(src, line_ending_end(src, i));
        }
        let rest = scan_literal(src, after, delim);
        if joins_with_space(src, after, delim) {
            LiteralScan { content: seq![' '] + rest.content, ..rest }
        } else {
            rest
        }
    } else if src[i] == '\\' {
        if i + 1 < src.len() && (src[i + 1] == '$' || src[i + 1] == delim) {
            let rest = scan_literal(src, i + 2, delim);
            LiteralScan { content: seq![src[i + 1]] + rest.content, ..rest }
        } else {
            let rest = scan_literal(src, i + 1, delim);
            LiteralScan { content: seq!['\\'] + rest.content, ..rest }
        }
    } else if src[i] == '$' && i + 1 < src.len() && src[i + 1] == '{' {
        LiteralScan { content: seq![], end: i, closed: true, interpolation: true }
    } else {
        let rest = scan_literal(src, i + 1, delim);
        LiteralScan { content: seq![src[i]] + rest.content, ..rest }
    }
}

/// The offset after the line ending at `i` and the spaces and tabs that
/// follow it.
pub open spec fn literal_line_end(src: Seq<char>, i: int) -> int {
    blank_end(src, line_ending_end(src, i))
}

/// Whether a line ending inside a literal, with the blanks after it ending at
/// `after`, stands for a space.
pub open spec fn joins_with_space(src: Seq<char>, after: int, delim: char) -> bool {
    after < src.len() && src[after] != delim && !is_newline(src[after])
}

/// The token of a scanned literal.
pub open spec fn literal_token(kind: InterpolationKind, scan: LiteralScan) -> TokenKindView {
    match kind {
        InterpolationKind::String => TokenKindView::StringLiteral {
            content: scan.content,
            is_closed: scan.closed,
        },
        InterpolationKind::Text => TokenKindView::Text {
            content: scan.content,
            is_closed: scan.closed,
        },
    }
}

/// The mode on top of the stack, if the stack is not empty.
pub open spec fn top_mode(modes: Seq<InterpolationMode>) -> Option<InterpolationMode> {
    if modes.len() > 0 {
        Some(modes.last())
    } else {
        None
    }
}

/// The stack with its top replaced.
pub open spec fn replace_top(modes: Seq<InterpolationMode>, mode: InterpolationMode) -> Seq<
    InterpolationMode,
> {
    modes.drop_last().push(mode)
}

/// A step that consumes characters up to `next` and produces nothing.
pub open spec fn skip_step(next: int, modes: Seq<InterpolationMode>) -> Step {
    Step { lexemes: seq![], next, modes }
}

/// A step that produces one lexeme from `i` up to `next`.
pub open spec fn token_step(
    kind: TokenKindView,
    i: int,
    next: int,
    modes: Seq<InterpolationMode>,
) -> Step {
    Step { lexemes: seq![Lexeme { kind, start: i, end: next }], next, modes }
}

/// The step at `${`: a dollar and a left curly bracket, and the
/// interpolation is entered.
pub open spec fn step_start(i: int, modes: Seq<InterpolationMode>, kind: InterpolationKind) -> Step {
    Step {
        lexemes: seq![
            Lexeme {
                kind: TokenKindView::Punctuator(Punctuator::Dollar),
                start: i,
                end: i + 1,
            },
            Lexeme {
                kind: TokenKindView::Punctuator(Punctuator::LeftCurlyBracket),
                start: i + 1,
                end: i + 2,
            },
        ],
        next: i + 2,
        modes: replace_top(modes, InterpolationMode::Interpolation(kind)),
    }
}

/// The step that opens a literal at its opening character at `i`. Where the
/// literal holds an interpolation, its start is pushed on the stack.
pub open spec fn step_open_literal(
    src: Seq<char>,
    i: int,
    modes: Seq<InterpolationMode>,
    kind: InterpolationKind,
) -> Step {
    let scan = scan_literal(src, i + 1, delimiter(kind));
    token_step(
        literal_token(kind, scan),
        i,
        scan.end,
        if scan.interpolation {
            modes.push(InterpolationMode::Start(kind))
        } else {
            modes
        },
    )
}

/// The step that goes on with a literal after an interpolation. Where
/// another interpolation follows, its start replaces the top of the stack;
/// else the literal is over and the top is dropped.
pub open spec fn step_literal(
    src: Seq<char>,
    i: int,
    modes: Seq<InterpolationMode>,
    kind: InterpolationKind,
) -> Step {
    let scan = scan_literal(src, i, delimiter(kind));
    token_step(
        literal_token(kind, scan),
        i,
        scan.end,
        if scan.interpolation {
            replace_top(modes, InterpolationMode::Start(kind))
        } else {
            modes.drop_last()
        },
    )
}

/// The step outside of literals, at the character at `i`.
pub open spec fn step_default(
    src: Seq<char>,
    i: int,
    modes: Seq<InterpolationMode>,
    in_interpolation: bool,
) -> Step {
    let c = src[i];
    if is_blank(c) {
        skip_step(i + 1, modes)
    } else if is_newline(c) {
        skip_step(line_ending_end(src, i), modes)
    } else if c == '/' {
        if i + 1 < src.len() && src[i + 1] == '/' {
            skip_step(comment_end(src, i + 2, in_interpolation), modes)
        } else {
            token_step(TokenKindView::Invalid, i, i + 1, modes)
        }
    } else if c == '(' {
        step_open_literal(src, i, modes, InterpolationKind::Text)
    } else if c == '"' {
        step_open_literal(src, i, modes, InterpolationKind::String)
    } else if is_integer_head(c) {
        let end = digits_end(src, i + 1);
        token_step(integer_token(src.subrange(i, end)), i, end, modes)
    } else if let Some(p) = punctuator_of(c) {
        token_step(TokenKindView::Punctuator(p), i, i + 1, modes)
    } else if is_identifier_head(c) {
        let end = identifier_end(src, i + 1);
        token_step(word_token(src.subrange(i, end)), i, end, modes)
    } else {
        token_step(TokenKindView::Invalid, i, i + 1, modes)
    }
}

/// The step inside an interpolation: a `}` ends it and the literal goes on;
/// anything else is read as outside of literals.
pub open spec fn step_interpolation(
    src: Seq<char>,
    i: int,
    modes: Seq<InterpolationMode>,
    kind: InterpolationKind,
) -> Step {
    if src[i] == '}' {
        token_step(
            TokenKindView::Punctuator(Punctuator::RightCurlyBracket),
            i,
            i + 1,
            replace_top(modes, InterpolationMode::Literal(kind)),
        )
    } else {
        step_default(src, i, modes, true)
    }
}

/// One step of the lexer at the offset `i`, by the mode on top of the stack.
pub open spec fn lex_step(src: Seq<char>, i: int, modes: Seq<InterpolationMode>) -> Step {
    match top_mode(modes) {
        Some(InterpolationMode::Start(kind)) => step_start(i, modes, kind),
        Some(InterpolationMode::Interpolation(kind)) => step_interpolation(src, i, modes, kind),
        Some(InterpolationMode::Literal(kind)) => step_literal(src, i, modes, kind),
        None => step_default(src, i, modes, false),
    }
}

/// What is produced at the end of the text: where a literal is still open
/// after an interpolation, an empty literal that is not closed.
pub open spec fn end_lexemes(src: Seq<char>, modes: Seq<InterpolationMode>) -> Seq<Lexeme> {
    match top_mode(modes) {
        Some(InterpolationMode::Literal(kind)) => seq![
            Lexeme {
                kind: literal_token(
                    kind,
                    LiteralScan {
                        content: seq![],
                        end: src.len() as int,
                        closed: false,
                        interpolation: false,
                    },
                ),
                start: src.len() as int,
                end: src.len() as int,
            },
        ],
        _ => seq![],
    }
}

/// How far the lexer is from the end, second to the offset: a step in a
/// literal may stay in place, and then leaves the literal.
pub open spec fn mode_rank(modes: Seq<InterpolationMode>) -> int {
    match top_mode(modes) {
        Some(InterpolationMode::Literal(_)) => 1,
        _ => 0,
    }
}

/// A scan never moves backwards, and stops in front of `${` where it reports
/// an interpolation.
pub proof fn lemma_scan_literal_bounds(src: Seq<char>, i: int, delim: char)
    requires
        0 <= i <= src.len(),
    ensures
        i <= scan_literal(src, i, delim).end <= src.len(),
        scan_literal(src, i, delim).interpolation ==> {
            let end = scan_literal(src, i, delim).end;
            &&& end + 1 < src.len()
            &&& src[end] == '$'
            &&& src[end + 1] == '{'
        },
        scan_literal(src, i, delim).interpolation ==> scan_literal(src, i, delim).closed,
        !scan_literal(src, i, delim).interpolation ==> scan_literal(src, i, delim).end > i || i
            == src.len(),
        !scan_literal(src, i, delim).closed ==> scan_literal(src, i, delim).end == src.len(),
    decreases src.len() - i,
{
    if i >= src.len() {
    } else if src[i] == delim {
    } else if is_newline(src[i]) {
        lemma_blank_end_bounds(src, line_ending_end(src, i));
        lemma_scan_literal_bounds(src, literal_line_end(src, i), delim);
    } else if src[i] == '\\' {
        if i + 1 < src.len() && (src[i + 1] == '$' || src[i + 1] == delim) {
            lemma_scan_literal_bounds(src, i + 2, delim);
        } else {
            lemma_scan_literal_bounds(src, i + 1, delim);
        }
    } else if src[i] == '$' && i + 1 < src.len() && src[i + 1] == '{' {
    } else {
        lemma_scan_literal_bounds(src, i + 1, delim);
    }
}

/// Skipping blanks never moves backwards nor past the end.
pub proof fn lemma_blank_end_bounds(src: Seq<char>, i: int)
    requires
        0 <= i <= src.len(),
    ensures
        i <= blank_end(src, i) <= src.len(),
    decreases src.len() - i,
{
    if i < src.len() && is_blank(src[i]) {
        lemma_blank_end_bounds(src, i + 1);
    }
}

/// Skipping digits never moves backwards nor past the end.
pub proof fn lemma_digits_end_bounds(src: Seq<char>, i: int)
    requires
        0 <= i <= src.len(),
    ensures
        i <= digits_end(src, i) <= src.len(),
    decreases src.len() - i,
{
    if i < src.len() && is_digit(src[i]) {
        lemma_digits_end_bounds(src, i + 1);
    }
}

/// Skipping the characters of an identifier never moves backwards nor past
/// the end.
pub proof fn lemma_identifier_end_bounds(src: Seq<char>, i: int)
    requires
        0 <= i <= src.len(),
    ensures
        i <= identifier_end(src, i) <= src.len(),
    decreases src.len() - i,
{
    if i < src.len() && is_identifier_tail(src[i]) {
        lemma_identifier_end_bounds(src, i + 1);
    }
}

/// Skipping a comment never moves backwards nor past the end.
pub proof fn lemma_comment_end_bounds(src: Seq<char>, i: int, in_interpolation: bool)
    requires
        0 <= i <= src.len(),
    ensures
        i <= comment_end(src, i, in_interpolation) <= src.len(),
    decreases src.len() - i,
{
    if i < src.len() && !is_newline(src[i]) && !(in_interpolation && src[i] == '}') {
        lemma_comment_end_bounds(src, i + 1, in_interpolation);
    }
}

/// Whether the stack fits the offset: below its top it holds open
/// interpolations only, and at the start of an interpolation the text goes on
/// with `${`.
pub open spec fn modes_fit(src: Seq<char>, i: int, modes: Seq<InterpolationMode>) -> bool {
    &&& forall|k: int| 0 <= k < modes.len() - 1 ==> #[trigger] modes[k] is Interpolation
    &&& top_mode(modes) is Some && top_mode(modes)->0 is Start ==> {
        &&& i + 1 < src.len()
        &&& src[i] == '$'
        &&& src[i + 1] == '{'
    }
}

/// A step moves forward, or stays in place and leaves a literal; it never
/// goes past the end, and the stack fits the new offset.
pub proof fn lemma_step_progress(src: Seq<char>, i: int, modes: Seq<InterpolationMode>)
    requires
        0 <= i < src.len(),
        modes_fit(src, i, modes),
    ensures
        ({
            let step = lex_step(src, i, modes);
            &&& i <= step.next <= src.len()
            &&& step.next > i || mode_rank(step.modes) < mode_rank(modes)
            &&& modes_fit(src, step.next, step.modes)
        }),
{
    match top_mode(modes) {
        Some(InterpolationMode::Start(kind)) => {},
        Some(InterpolationMode::Interpolation(kind)) => {
            if src[i] != '}' {
                lemma_default_progress(src, i, modes, true);
            }
        },
        Some(InterpolationMode::Literal(kind)) => {
            lemma_scan_literal_bounds(src, i, delimiter(kind));
        },
        None => {
            lemma_default_progress(src, i, modes, false);
        },
    }
}

/// A step outside of literals moves forward and never goes past the end.
pub proof fn lemma_default_progress(
    src: Seq<char>,
    i: int,
    modes: Seq<InterpolationMode>,
    in_interpolation: bool,
)
    requires
        0 <= i < src.len(),
        forall|k: int| 0 <= k < modes.len() ==> #[trigger] modes[k] is Interpolation,
    ensures
        ({
            let step = step_default(src, i, modes, in_interpolation);
            &&& i < step.next <= src.len()
            &&& modes_fit(src, step.next, step.modes)
        }),
{
    let c = src[i];
    if is_blank(c) {
    } else if is_newline(c) {
    } else if c == '/' {
        if i + 1 < src.len() && src[i + 1] == '/' {
            lemma_comment_end_bounds(src, i + 2, in_interpolation);
        }
    } else if c == '(' {
        lemma_scan_literal_bounds(src, i + 1, ')');
    } else if c == '"' {
        lemma_scan_literal_bounds(src, i + 1, '"');
    } else if is_integer_head(c) {
        lemma_digits_end_bounds(src, i + 1);
    } else if punctuator_of(c) is Some {
    } else if is_identifier_head(c) {
        lemma_identifier_end_bounds(src, i + 1);
    } else {
    }
}

/// The lexemes of the text from the offset `i` on, with the stack `modes`.
pub open spec fn lexemes_from(src: Seq<char>, i: int, modes: Seq<InterpolationMode>) -> Seq<Lexeme>
    decreases src.len() - i, mode_rank(modes),
{
    if 0 <= i < src.len() && modes_fit(src, i, modes) {
        let step = lex_step(src, i, modes);
        proof {
            lemma_step_progress(src, i, modes);
        }
        step.lexemes + lexemes_from(src, step.next, step.modes)
    } else {
        end_lexemes(src, modes)
    }
}

/// The lexemes of a text.
pub open spec fn lexemes(src: Seq<char>) -> Seq<Lexeme> {
    lexemes_from(src, 0, seq![])
}

/// The tokens of a text, each with its span.
pub open spec fn lex_tokens(src: Seq<char>) -> Seq<TokenView> {
    tokens_of(src, lexemes(src))
}

/// The empty span at the end of a text.
pub open spec fn end_span(src: Seq<char>) -> Span {
    span_at(src, src.len() as int, src.len() as int)
}

/// Line and column of an offset are at least one and at most the offset
/// plus one.
pub proof fn lemma_position_bounds(src: Seq<char>, k: int)
    requires
        0 <= k,
    ensures
        1 <= line_at(src, k) <= k + 1,
        1 <= column_at(src, k) <= k + 1,
    decreases k,
{
    if k > 0 {
        lemma_position_bounds(src, k - 1);
    }
}

} // verus!
