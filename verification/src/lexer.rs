//! The lexer: from source text to tokens with spans.
//!
//! The lexer never fails. A character that starts no token gives an invalid
//! token, and a literal that the text ends in gives a token that is marked as
//! not closed.

use vstd::prelude::*;
use crate::chars::{
    characters, identifier_head, identifier_tail, integer_head, integer_tail, newline, punctuator,
    spells, whitespace_except_newline,
};
use crate::chars::{is_digit, is_integer_head, is_newline};
use crate::lexer_model::{
    blank_end, column_at, comment_end, delimiter, digits_end, digits_value, end_lexemes, end_span,
    identifier_end, integer_token, lemma_blank_end_bounds, lemma_position_bounds,
    lemma_step_progress, lex_step, lex_tokens, lexemes_from, line_at, line_ending_end,
    literal_token, modes_fit, position_at, scan_literal, step_default, step_interpolation,
    step_literal, step_open_literal, step_start, tokens_of, word_token, InterpolationKind,
    InterpolationMode,
};
use crate::span::{Position, Span};
use crate::token::{
    tokens_view, BooleanLiteral, Identifier, IntegerLiteral, Keyword, Punctuator, StringLiteral,
    Text, TokenKind, Type,
};

verus! {

/// The longest source text, in characters, that the lexer takes: lines and
/// columns are counted in 32 bits.
pub const MAX_SOURCE_LENGTH: usize = 0xFFFF_FFFE;

/// Tells whether a source text is short enough for the lexer.
pub fn source_fits(input: &str) -> (r: bool)
    ensures
        r == (input@.len() <= MAX_SOURCE_LENGTH),
{
    input.unicode_len() <= MAX_SOURCE_LENGTH
}

/// Where the lexer stands in the text: the offset, and its line and column.
struct Cursor {
    pos: usize,
    line: u32,
    column: u32,
}

/// Turns source text into tokens.
pub struct Lexer {
    chars: Vec<char>,
    cursor: Cursor,
    interpolation_mode: Vec<InterpolationMode>,
}

impl Cursor {
    /// The cursor stands at an offset of the text, with the line and column
    /// of that offset.
    spec fn at(&self, src: Seq<char>) -> bool {
        &&& src.len() <= MAX_SOURCE_LENGTH
        &&& self.pos <= src.len()
        &&& self.line as int == line_at(src, self.pos as int)
        &&& self.column as int == column_at(src, self.pos as int)
    }

    /// The offset of the cursor.
    spec fn offset(&self) -> int {
        self.pos as int
    }

    fn position(&self, Ghost(src): Ghost<Seq<char>>) -> (r: Position)
        requires
            self.at(src),
        ensures
            r == position_at(src, self.offset()),
    {
        Position { line: self.line, column: self.column }
    }

    fn span(&self, start: Position, Ghost(src): Ghost<Seq<char>>) -> (r: Span)
        requires
            self.at(src),
        ensures
            r == (Span { start, end: position_at(src, self.offset()) }),
    {
        Span { start, end: self.position(Ghost(src)) }
    }

    fn skip(&mut self, src: &Vec<char>)
        requires
            old(self).at(src@),
            old(self).offset() < src@.len(),
        ensures
            final(self).at(src@),
            final(self).offset() == old(self).offset() + 1,
    {
        proof {
            lemma_position_bounds(src@, self.pos as int);
        }
        let c = src[self.pos];
        let followed = self.pos + 1 < src.len() && src[self.pos + 1] == '\n';
        if c == '\n' || (c == '\r' && !followed) {
            self.line = self.line + 1;
            self.column = 1;
        } else {
            self.column = self.column + 1;
        }
        self.pos = self.pos + 1;
    }
}

fn try_consume_whitespace(src: &Vec<char>, cur: &mut Cursor)
    requires
        old(cur).at(src@),
    ensures
        final(cur).at(src@),
        final(cur).offset() == blank_end(src@, old(cur).offset()),
{
    while cur.pos < src.len() && whitespace_except_newline(src[cur.pos])
        invariant
            cur.at(src@),
            blank_end(src@, cur.offset()) == blank_end(src@, old(cur).offset()),
        decreases src@.len() - cur.offset(),
    {
        cur.skip(src);
    }
}

fn try_consume_line_ending(src: &Vec<char>, cur: &mut Cursor)
    requires
        old(cur).at(src@),
        old(cur).offset() < src@.len(),
        is_newline(src@[old(cur).offset()]),
    ensures
        final(cur).at(src@),
        final(cur).offset() == line_ending_end(src@, old(cur).offset()),
{
    let c = src[cur.pos];
    cur.skip(src);
    if c == '\r' && cur.pos < src.len() && src[cur.pos] == '\n' {
        cur.skip(src);
    }
}

fn try_consume_comment(src: &Vec<char>, cur: &mut Cursor, in_interpolation: bool)
    requires
        old(cur).at(src@),
    ensures
        final(cur).at(src@),
        final(cur).offset() == comment_end(src@, old(cur).offset(), in_interpolation),
{
    while cur.pos < src.len() && !newline(src[cur.pos]) && !(in_interpolation && src[cur.pos]
        == '}')
        invariant
            cur.at(src@),
            comment_end(src@, cur.offset(), in_interpolation) == comment_end(
                src@,
                old(cur).offset(),
                in_interpolation,
            ),
        decreases src@.len() - cur.offset(),
    {
        cur.skip(src);
    }
}

fn consume_text_until(src: &Vec<char>, cur: &mut Cursor, delim: char) -> (r: (String, bool, bool))
    requires
        old(cur).at(src@),
    ensures
        final(cur).at(src@),
        ({
            let scan = scan_literal(src@, old(cur).offset(), delim);
            &&& r.0@ == scan.content
            &&& final(cur).offset() == scan.end
            &&& r.1 == scan.closed
            &&& r.2 == scan.interpolation
        }),
{
    let ghost full = scan_literal(src@, cur.offset(), delim);
    let mut text = String::new();
    loop
        invariant
            cur.at(src@),
            full == scan_literal(src@, old(cur).offset(), delim),
            full.content == text@ + scan_literal(src@, cur.offset(), delim).content,
            full.end == scan_literal(src@, cur.offset(), delim).end,
            full.closed == scan_literal(src@, cur.offset(), delim).closed,
            full.interpolation == scan_literal(src@, cur.offset(), delim).interpolation,
        decreases src@.len() - cur.offset(),
    {
        let ghost before = cur.offset();
        let ghost here = scan_literal(src@, before, delim);
        if cur.pos >= src.len() {
            assert(here.content =~= Seq::<char>::empty());
            assert(text@ + here.content =~= text@);
            assert(full.content == text@);
            return (text, false, false);
        }
        let ch = src[cur.pos];
        if ch == delim {
            cur.skip(src);
            assert(text@ + here.content =~= text@);
            return (text, true, false);
        } else if newline(ch) {
            try_consume_line_ending(src, cur);
            proof {
                lemma_blank_end_bounds(src@, cur.offset());
            }
            try_consume_whitespace(src, cur);
            let ghost rest = scan_literal(src@, cur.offset(), delim);
            if cur.pos < src.len() && src[cur.pos] != delim && !newline(src[cur.pos]) {
                assert(text@ + (seq![' '] + rest.content) =~= text@.push(' ') + rest.content);
                text.push(' ');
            }
        } else if ch == '\\' {
            if cur.pos + 1 < src.len() && (src[cur.pos + 1] == '$' || src[cur.pos + 1] == delim) {
                let escaped = src[cur.pos + 1];
                cur.skip(src);
                cur.skip(src);
                let ghost rest = scan_literal(src@, cur.offset(), delim);
                assert(text@ + (seq![escaped] + rest.content) =~= text@.push(escaped)
                    + rest.content);
                text.push(escaped);
            } else {
                cur.skip(src);
                let ghost rest = scan_literal(src@, cur.offset(), delim);
                assert(text@ + (seq!['\\'] + rest.content) =~= text@.push('\\') + rest.content);
                text.push('\\');
            }
        } else if ch == '$' && cur.pos + 1 < src.len() && src[cur.pos + 1] == '{' {
            assert(text@ + here.content =~= text@);
            return (text, true, true);
        } else {
            cur.skip(src);
            let ghost rest = scan_literal(src@, cur.offset(), delim);
            assert(text@ + (seq![ch] + rest.content) =~= text@.push(ch) + rest.content);
            text.push(ch);
        }
    }
}

fn consume_string_literal(src: &Vec<char>, cur: &mut Cursor) -> (r: (StringLiteral, bool))
    requires
        old(cur).at(src@),
    ensures
        final(cur).at(src@),
        ({
            let scan = scan_literal(src@, old(cur).offset(), '"');
            &&& TokenKind::StringLiteral(r.0)@ == literal_token(InterpolationKind::String, scan)
            &&& final(cur).offset() == scan.end
            &&& r.1 == scan.interpolation
        }),
{
    let (content, is_closed, interpolation) = consume_text_until(src, cur, '"');
    (StringLiteral { content, is_closed }, interpolation)
}

fn consume_text(src: &Vec<char>, cur: &mut Cursor) -> (r: (Text, bool))
    requires
        old(cur).at(src@),
    ensures
        final(cur).at(src@),
        ({
            let scan = scan_literal(src@, old(cur).offset(), ')');
            &&& TokenKind::Text(r.0)@ == literal_token(InterpolationKind::Text, scan)
            &&& final(cur).offset() == scan.end
            &&& r.1 == scan.interpolation
        }),
{
    let (content, is_closed, interpolation) = consume_text_until(src, cur, ')');
    (Text { content, is_closed }, interpolation)
}

fn consume_literal(src: &Vec<char>, cur: &mut Cursor, kind: InterpolationKind) -> (r: (
    TokenKind,
    bool,
))
    requires
        old(cur).at(src@),
    ensures
        final(cur).at(src@),
        ({
            let scan = scan_literal(src@, old(cur).offset(), delimiter(kind));
            &&& r.0@ == literal_token(kind, scan)
            &&& final(cur).offset() == scan.end
            &&& r.1 == scan.interpolation
        }),
{
    match kind {
        InterpolationKind::String => {
            let (literal, interpolation) = consume_string_literal(src, cur);
            (TokenKind::StringLiteral(literal), interpolation)
        },
        InterpolationKind::Text => {
            let (literal, interpolation) = consume_text(src, cur);
            (TokenKind::Text(literal), interpolation)
        },
    }
}

/// The numbers up to this one can stand behind a minus sign.
const MAGNITUDE_LIMIT: u64 = 0x8000_0000_0000_0000;

fn digit_value(c: char) -> (r: u64)
    requires
        is_digit(c),
    ensures
        r == c as int - '0' as int,
        r <= 9,
{
    (c as u32 - '0' as u32) as u64
}

fn try_consume_integer_literal(src: &Vec<char>, cur: &mut Cursor) -> (r: TokenKind)
    requires
        old(cur).at(src@),
        old(cur).offset() < src@.len(),
        is_integer_head(src@[old(cur).offset()]),
    ensures
        final(cur).at(src@),
        final(cur).offset() == digits_end(src@, old(cur).offset() + 1),
        old(cur).offset() < final(cur).offset() <= src@.len(),
        r@ == integer_token(src@.subrange(old(cur).offset(), final(cur).offset())),
{
    let ghost start = cur.offset();
    let head = src[cur.pos];
    let negative = head == '-';
    let ghost first = if negative {
        start + 1
    } else {
        start
    };
    let mut magnitude: u64 = 0;
    let mut too_big = false;
    let mut any_digit = false;
    if !negative {
        magnitude = digit_value(head);
        any_digit = true;
        assert(src@.subrange(first, start + 1).drop_last() =~= Seq::<char>::empty());
        assert(digits_value(Seq::<char>::empty()) == 0);
        assert(digits_value(src@.subrange(first, start + 1)) == magnitude);
    } else {
        assert(src@.subrange(first, start + 1) =~= Seq::<char>::empty());
    }
    cur.skip(src);
    while cur.pos < src.len() && integer_tail(src[cur.pos])
        invariant
            cur.at(src@),
            0 <= start < cur.offset() <= src@.len(),
            first <= cur.offset(),
            first == (if negative {
                start + 1
            } else {
                start
            }),
            digits_end(src@, cur.offset()) == digits_end(src@, start + 1),
            any_digit == (cur.offset() > first),
            !too_big ==> magnitude == digits_value(src@.subrange(first, cur.offset())),
            !too_big ==> magnitude <= MAGNITUDE_LIMIT,
            too_big ==> digits_value(src@.subrange(first, cur.offset())) > MAGNITUDE_LIMIT,
        decreases src@.len() - cur.offset(),
    {
        let digit = digit_value(src[cur.pos]);
        let ghost prefix = src@.subrange(first, cur.offset());
        let ghost longer = src@.subrange(first, cur.offset() + 1);
        assert(0 <= first <= cur.offset() < src@.len());
        assert(longer.len() == prefix.len() + 1);
        assert(longer.drop_last() =~= prefix);
        assert(longer.last() == src@[cur.offset()]);
        assert(digits_value(longer) == digits_value(prefix) * 10 + digit);
        if !too_big {
            if magnitude > (MAGNITUDE_LIMIT - digit) / 10 {
                too_big = true;
            } else {
                magnitude = magnitude * 10 + digit;
            }
        }
        any_digit = true;
        cur.skip(src);
    }
    let ghost text = src@.subrange(start, cur.offset());
    let ghost digits = src@.subrange(first, cur.offset());
    proof {
        if negative {
            assert(text.drop_first() =~= digits);
        } else {
            assert(text =~= digits);
        }
        assert(text.len() > 0 && text[0] == head);
    }
    if !any_digit || too_big {
        TokenKind::Invalid
    } else if negative {
        if magnitude == MAGNITUDE_LIMIT {
            TokenKind::IntegerLiteral(IntegerLiteral(i64::MIN))
        } else {
            TokenKind::IntegerLiteral(IntegerLiteral(-(magnitude as i64)))
        }
    } else if magnitude == MAGNITUDE_LIMIT {
        TokenKind::Invalid
    } else {
        TokenKind::IntegerLiteral(IntegerLiteral(magnitude as i64))
    }
}

fn try_consume_identifier_string(src: &Vec<char>, cur: &mut Cursor) -> (r: String)
    requires
        old(cur).at(src@),
        old(cur).offset() < src@.len(),
    ensures
        final(cur).at(src@),
        final(cur).offset() == identifier_end(src@, old(cur).offset() + 1),
        old(cur).offset() < final(cur).offset() <= src@.len(),
        r@ == src@.subrange(old(cur).offset(), final(cur).offset()),
{
    let ghost start = cur.offset();
    let mut content = String::new();
    content.push(src[cur.pos]);
    cur.skip(src);
    assert(content@ =~= src@.subrange(start, cur.offset()));
    while cur.pos < src.len() && identifier_tail(src[cur.pos])
        invariant
            cur.at(src@),
            0 <= start < cur.offset() <= src@.len(),
            identifier_end(src@, cur.offset()) == identifier_end(src@, start + 1),
            content@ == src@.subrange(start, cur.offset()),
        decreases src@.len() - cur.offset(),
    {
        let ghost shorter = src@.subrange(start, cur.offset());
        content.push(src[cur.pos]);
        cur.skip(src);
        assert(src@.subrange(start, cur.offset()) =~= shorter.push(src@[cur.offset() - 1]));
    }
    content
}

fn get_type(src: &Vec<char>, start: usize, end: usize) -> (r: Option<Type>)
    requires
        start <= end <= src@.len(),
    ensures
        r == crate::lexer_model::type_of_word(src@.subrange(start as int, end as int)),
{
    if spells(src, start, end, "string") {
        Some(Type::String)
    } else if spells(src, start, end, "int") || spells(src, start, end, "integer") {
        Some(Type::Integer)
    } else if spells(src, start, end, "bool") {
        Some(Type::Bool)
    } else if spells(src, start, end, "slot") {
        Some(Type::Slot)
    } else {
        None
    }
}

fn get_keyword(src: &Vec<char>, start: usize, end: usize) -> (r: Option<Keyword>)
    requires
        start <= end <= src@.len(),
    ensures
        r == crate::lexer_model::keyword_of_word(src@.subrange(start as int, end as int)),
{
    if spells(src, start, end, "component") {
        Some(Keyword::Component)
    } else if spells(src, start, end, "default") {
        Some(Keyword::Default)
    } else if spells(src, start, end, "text") {
        Some(Keyword::Text)
    } else {
        None
    }
}

fn get_boolean_literal(src: &Vec<char>, start: usize, end: usize) -> (r: Option<BooleanLiteral>)
    requires
        start <= end <= src@.len(),
    ensures
        match r {
            Some(b) => crate::lexer_model::boolean_of_word(src@.subrange(start as int, end as int))
                == Some(b.0),
            None => crate::lexer_model::boolean_of_word(src@.subrange(start as int, end as int))
                is None,
        },
{
    if spells(src, start, end, "true") {
        Some(BooleanLiteral(true))
    } else if spells(src, start, end, "false") {
        Some(BooleanLiteral(false))
    } else {
        None
    }
}

fn try_consume_identifier(src: &Vec<char>, cur: &mut Cursor) -> (r: TokenKind)
    requires
        old(cur).at(src@),
        old(cur).offset() < src@.len(),
    ensures
        final(cur).at(src@),
        final(cur).offset() == identifier_end(src@, old(cur).offset() + 1),
        old(cur).offset() < final(cur).offset() <= src@.len(),
        r@ == word_token(src@.subrange(old(cur).offset(), final(cur).offset())),
{
    let start = cur.pos;
    let word = try_consume_identifier_string(src, cur);
    let end = cur.pos;
    if let Some(ty) = get_type(src, start, end) {
        TokenKind::Type(ty)
    } else if let Some(keyword) = get_keyword(src, start, end) {
        TokenKind::Keyword(keyword)
    } else if let Some(boolean) = get_boolean_literal(src, start, end) {
        TokenKind::BooleanLiteral(boolean)
    } else {
        TokenKind::Identifier(Identifier(word))
    }
}

fn add_token(tokens: &mut Vec<(TokenKind, Span)>, kind: TokenKind, span: Span)
    ensures
        tokens_view(final(tokens)@) == tokens_view(old(tokens)@).push((kind@, span)),
{
    tokens.push((kind, span));
    assert(tokens_view(tokens@) =~= tokens_view(old(tokens)@).push((kind@, span)));
}

/// Whether the tokens grew by the tokens of the lexemes.
spec fn grew_by(
    before: Seq<(TokenKind, Span)>,
    after: Seq<(TokenKind, Span)>,
    src: Seq<char>,
    lexemes: Seq<crate::lexer_model::Lexeme>,
) -> bool {
    tokens_view(after) == tokens_view(before) + tokens_of(src, lexemes)
}

fn lex_open_literal(
    src: &Vec<char>,
    cur: &mut Cursor,
    modes: &mut Vec<InterpolationMode>,
    tokens: &mut Vec<(TokenKind, Span)>,
    kind: InterpolationKind,
)
    requires
        old(cur).at(src@),
        old(cur).offset() < src@.len(),
    ensures
        final(cur).at(src@),
        ({
            let step = step_open_literal(src@, old(cur).offset(), old(modes)@, kind);
            &&& final(cur).offset() == step.next
            &&& final(modes)@ == step.modes
            &&& grew_by(old(tokens)@, final(tokens)@, src@, step.lexemes)
        }),
{
    let start = cur.position(Ghost(src@));
    cur.skip(src);
    let (token, interpolation) = consume_literal(src, cur, kind);
    if interpolation {
        modes.push(InterpolationMode::Start(kind));
    }
    add_token(tokens, token, cur.span(start, Ghost(src@)));
    proof {
        let step = step_open_literal(src@, old(cur).offset(), old(modes)@, kind);
        assert(tokens_view(tokens@) =~= tokens_view(old(tokens)@) + tokens_of(src@, step.lexemes));
    }
}

fn lex_default(
    src: &Vec<char>,
    cur: &mut Cursor,
    modes: &mut Vec<InterpolationMode>,
    tokens: &mut Vec<(TokenKind, Span)>,
    in_interpolation: bool,
)
    requires
        old(cur).at(src@),
        old(cur).offset() < src@.len(),
    ensures
        final(cur).at(src@),
        ({
            let step = step_default(src@, old(cur).offset(), old(modes)@, in_interpolation);
            &&& final(cur).offset() == step.next
            &&& final(modes)@ == step.modes
            &&& grew_by(old(tokens)@, final(tokens)@, src@, step.lexemes)
        }),
{
    let ghost step = step_default(src@, cur.offset(), modes@, in_interpolation);
    let start = cur.position(Ghost(src@));
    let ch = src[cur.pos];
    if whitespace_except_newline(ch) {
        cur.skip(src);
        assert(tokens_view(tokens@) =~= tokens_view(old(tokens)@) + tokens_of(src@, step.lexemes));
    } else if newline(ch) {
        try_consume_line_ending(src, cur);
        assert(tokens_view(tokens@) =~= tokens_view(old(tokens)@) + tokens_of(src@, step.lexemes));
    } else if ch == '/' {
        if cur.pos + 1 < src.len() && src[cur.pos + 1] == '/' {
            cur.skip(src);
            cur.skip(src);
            try_consume_comment(src, cur, in_interpolation);
            assert(tokens_view(tokens@) =~= tokens_view(old(tokens)@) + tokens_of(
                src@,
                step.lexemes,
            ));
        } else {
            cur.skip(src);
            add_token(tokens, TokenKind::Invalid, cur.span(start, Ghost(src@)));
            assert(tokens_view(tokens@) =~= tokens_view(old(tokens)@) + tokens_of(
                src@,
                step.lexemes,
            ));
        }
    } else if ch == '(' {
        lex_open_literal(src, cur, modes, tokens, InterpolationKind::Text);
    } else if ch == '"' {
        lex_open_literal(src, cur, modes, tokens, InterpolationKind::String);
    } else if integer_head(ch) {
        let token = try_consume_integer_literal(src, cur);
        add_token(tokens, token, cur.span(start, Ghost(src@)));
        assert(tokens_view(tokens@) =~= tokens_view(old(tokens)@) + tokens_of(src@, step.lexemes));
    } else if let Some(p) = punctuator(ch) {
        cur.skip(src);
        add_token(tokens, TokenKind::Punctuator(p), cur.span(start, Ghost(src@)));
        assert(tokens_view(tokens@) =~= tokens_view(old(tokens)@) + tokens_of(src@, step.lexemes));
    } else if identifier_head(ch) {
        let token = try_consume_identifier(src, cur);
        add_token(tokens, token, cur.span(start, Ghost(src@)));
        assert(tokens_view(tokens@) =~= tokens_view(old(tokens)@) + tokens_of(src@, step.lexemes));
    } else {
        cur.skip(src);
        add_token(tokens, TokenKind::Invalid, cur.span(start, Ghost(src@)));
        assert(tokens_view(tokens@) =~= tokens_view(old(tokens)@) + tokens_of(src@, step.lexemes));
    }
}

fn replace_top(modes: &mut Vec<InterpolationMode>, mode: InterpolationMode)
    requires
        old(modes)@.len() > 0,
    ensures
        final(modes)@ == crate::lexer_model::replace_top(old(modes)@, mode),
{
    modes.pop();
    modes.push(mode);
}

fn lex_interpolation_start(
    src: &Vec<char>,
    cur: &mut Cursor,
    modes: &mut Vec<InterpolationMode>,
    tokens: &mut Vec<(TokenKind, Span)>,
    kind: InterpolationKind,
)
    requires
        old(cur).at(src@),
        old(cur).offset() + 1 < src@.len(),
        old(modes)@.len() > 0,
    ensures
        final(cur).at(src@),
        ({
            let step = step_start(old(cur).offset(), old(modes)@, kind);
            &&& final(cur).offset() == step.next
            &&& final(modes)@ == step.modes
            &&& grew_by(old(tokens)@, final(tokens)@, src@, step.lexemes)
        }),
{
    let start = cur.position(Ghost(src@));
    cur.skip(src);
    add_token(
        tokens,
        TokenKind::Punctuator(Punctuator::Dollar),
        cur.span(start, Ghost(src@)),
    );
    let middle = cur.position(Ghost(src@));
    cur.skip(src);
    add_token(
        tokens,
        TokenKind::Punctuator(Punctuator::LeftCurlyBracket),
        cur.span(middle, Ghost(src@)),
    );
    replace_top(modes, InterpolationMode::Interpolation(kind));
    proof {
        let step = step_start(old(cur).offset(), old(modes)@, kind);
        assert(tokens_view(tokens@) =~= tokens_view(old(tokens)@) + tokens_of(src@, step.lexemes));
    }
}

fn lex_interpolation(
    src: &Vec<char>,
    cur: &mut Cursor,
    modes: &mut Vec<InterpolationMode>,
    tokens: &mut Vec<(TokenKind, Span)>,
    kind: InterpolationKind,
)
    requires
        old(cur).at(src@),
        old(cur).offset() < src@.len(),
        old(modes)@.len() > 0,
    ensures
        final(cur).at(src@),
        ({
            let step = step_interpolation(src@, old(cur).offset(), old(modes)@, kind);
            &&& final(cur).offset() == step.next
            &&& final(modes)@ == step.modes
            &&& grew_by(old(tokens)@, final(tokens)@, src@, step.lexemes)
        }),
{
    if src[cur.pos] == '}' {
        let start = cur.position(Ghost(src@));
        cur.skip(src);
        add_token(
            tokens,
            TokenKind::Punctuator(Punctuator::RightCurlyBracket),
            cur.span(start, Ghost(src@)),
        );
        replace_top(modes, InterpolationMode::Literal(kind));
        proof {
            let step = step_interpolation(src@, old(cur).offset(), old(modes)@, kind);
            assert(tokens_view(tokens@) =~= tokens_view(old(tokens)@) + tokens_of(
                src@,
                step.lexemes,
            ));
        }
    } else {
        lex_default(src, cur, modes, tokens, true);
    }
}

fn lex_interpolation_literal(
    src: &Vec<char>,
    cur: &mut Cursor,
    modes: &mut Vec<InterpolationMode>,
    tokens: &mut Vec<(TokenKind, Span)>,
    kind: InterpolationKind,
)
    requires
        old(cur).at(src@),
        old(modes)@.len() > 0,
    ensures
        final(cur).at(src@),
        ({
            let step = step_literal(src@, old(cur).offset(), old(modes)@, kind);
            &&& final(cur).offset() == step.next
            &&& final(modes)@ == step.modes
            &&& grew_by(old(tokens)@, final(tokens)@, src@, step.lexemes)
        }),
{
    let start = cur.position(Ghost(src@));
    let (token, interpolation) = consume_literal(src, cur, kind);
    if interpolation {
        replace_top(modes, InterpolationMode::Start(kind));
    } else {
        modes.pop();
    }
    add_token(tokens, token, cur.span(start, Ghost(src@)));
    proof {
        let step = step_literal(src@, old(cur).offset(), old(modes)@, kind);
        assert(tokens_view(tokens@) =~= tokens_view(old(tokens)@) + tokens_of(src@, step.lexemes));
    }
}

fn top_of(modes: &Vec<InterpolationMode>) -> (r: Option<InterpolationMode>)
    ensures
        r == crate::lexer_model::top_mode(modes@),
{
    if modes.len() > 0 {
        Some(modes[modes.len() - 1])
    } else {
        None
    }
}

impl Lexer {
    /// The text that the lexer reads.
    pub closed spec fn source(&self) -> Seq<char> {
        self.chars@
    }

    /// The lexer stands at the start of a text that is short enough.
    pub closed spec fn well_formed(&self) -> bool {
        &&& self.chars@.len() <= MAX_SOURCE_LENGTH
        &&& self.cursor.pos == 0
        &&& self.cursor.line == 1
        &&& self.cursor.column == 1
        &&& self.interpolation_mode@.len() == 0
    }

    /// Creates a lexer with the given source text as its input.
    pub fn new(input: &str) -> (r: Lexer)
        requires
            input@.len() <= MAX_SOURCE_LENGTH,
        ensures
            r.well_formed(),
            r.source() == input@,
    {
        Lexer {
            chars: characters(input),
            cursor: Cursor { pos: 0, line: 1, column: 1 },
            interpolation_mode: Vec::new(),
        }
    }

    /// Produces the tokens of the text, each with its span, and the empty
    /// span at the end of the text.
    pub fn lex(self) -> (r: (Vec<(TokenKind, Span)>, Span))
        requires
            self.well_formed(),
        ensures
            tokens_view(r.0@) == lex_tokens(self.source()),
            r.1 == end_span(self.source()),
    {
        let src = self.chars;
        let mut cur = self.cursor;
        let mut modes = self.interpolation_mode;
        let mut tokens: Vec<(TokenKind, Span)> = Vec::new();
        assert(modes@ =~= Seq::<InterpolationMode>::empty());
        assert(tokens_view(tokens@) =~= Seq::<crate::token::TokenView>::empty());
        assert(tokens_view(tokens@) + tokens_of(src@, lexemes_from(src@, 0, modes@)) =~= lex_tokens(
            src@,
        ));
        while cur.pos < src.len()
            invariant
                cur.at(src@),
                modes_fit(src@, cur.offset(), modes@),
                tokens_view(tokens@) + tokens_of(src@, lexemes_from(src@, cur.offset(), modes@))
                    == lex_tokens(src@),
            decreases src@.len() - cur.offset(), crate::lexer_model::mode_rank(modes@),
        {
            let ghost before = tokens_view(tokens@);
            let ghost step = lex_step(src@, cur.offset(), modes@);
            let ghost rest = lexemes_from(src@, step.next, step.modes);
            proof {
                lemma_step_progress(src@, cur.offset(), modes@);
                assert(lexemes_from(src@, cur.offset(), modes@) == step.lexemes + rest);
                assert(tokens_of(src@, step.lexemes + rest) =~= tokens_of(src@, step.lexemes)
                    + tokens_of(src@, rest));
            }
            match top_of(&modes) {
                Some(InterpolationMode::Start(kind)) => {
                    lex_interpolation_start(&src, &mut cur, &mut modes, &mut tokens, kind)
                },
                Some(InterpolationMode::Interpolation(kind)) => {
                    lex_interpolation(&src, &mut cur, &mut modes, &mut tokens, kind)
                },
                Some(InterpolationMode::Literal(kind)) => {
                    lex_interpolation_literal(&src, &mut cur, &mut modes, &mut tokens, kind)
                },
                None => lex_default(&src, &mut cur, &mut modes, &mut tokens, false),
            }
            assert(tokens_view(tokens@) + tokens_of(src@, rest) =~= before + (tokens_of(
                src@,
                step.lexemes,
            ) + tokens_of(src@, rest)));
        }
        let end = cur.span(cur.position(Ghost(src@)), Ghost(src@));
        if let Some(InterpolationMode::Literal(kind)) = top_of(&modes) {
            let token = match kind {
                InterpolationKind::String => TokenKind::StringLiteral(
                    StringLiteral { content: String::new(), is_closed: false },
                ),
                InterpolationKind::Text => TokenKind::Text(
                    Text { content: String::new(), is_closed: false },
                ),
            };
            let ghost before = tokens_view(tokens@);
            add_token(&mut tokens, token, end);
            assert(tokens_view(tokens@) =~= before + tokens_of(src@, end_lexemes(src@, modes@)));
        } else {
            assert(tokens_view(tokens@) + tokens_of(src@, end_lexemes(src@, modes@))
                =~= tokens_view(tokens@));
        }
        (tokens, end)
    }
}

} // verus!
