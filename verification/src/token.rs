//! Tokens: the lexical units of the language.

use vstd::prelude::*;
use vstd::std_specs::convert::FromSpecImpl;
use crate::span::Span;

verus! {

/// The kind of a token, with its content where it has one.
#[derive(Debug, Clone, Hash, PartialEq, Eq)]
pub enum TokenKind {
    Invalid,
    Punctuator(Punctuator),
    Keyword(Keyword),
    Type(Type),
    Identifier(Identifier),
    BooleanLiteral(BooleanLiteral),
    IntegerLiteral(IntegerLiteral),
    StringLiteral(StringLiteral),
    Text(Text),
}

/// A single-character punctuator.
#[derive(Debug, Clone, Copy, Hash, PartialEq, Eq, Structural)]
pub enum Punctuator {
    LeftSquareBracket,
    RightSquareBracket,
    LeftCurlyBracket,
    RightCurlyBracket,
    Comma,
    Colon,
    Equals,
    Dollar,
    At,
    Hash,
}

/// The name of a type. The list type `slot[]` is a `Slot` followed by two
/// brackets.
#[derive(Debug, Clone, Copy, Hash, PartialEq, Eq, Structural)]
pub enum Type {
    String,
    Integer,
    Bool,
    Slot,
}

/// A reserved word.
#[derive(Debug, Clone, Copy, Hash, PartialEq, Eq, Structural)]
pub enum Keyword {
    Component,
    Default,
    Text,
}

/// An identifier, by its name.
#[derive(Debug, Clone, Hash, PartialEq, Eq)]
pub struct Identifier(pub String);

/// `true` or `false`.
#[derive(Debug, Clone, Copy, Hash, PartialEq, Eq, Structural)]
pub struct BooleanLiteral(pub bool);

/// A decimal integer.
#[derive(Debug, Clone, Copy, Hash, PartialEq, Eq, Structural)]
pub struct IntegerLiteral(pub i64);

/// A segment of a string literal. It is closed when its end was found: the
/// closing quote or the start of an interpolation.
#[derive(Debug, Clone, Hash, PartialEq, Eq)]
pub struct StringLiteral {
    pub content: String,
    pub is_closed: bool,
}

/// A segment of a text literal. It is closed when its end was found: the
/// closing parenthesis or the start of an interpolation.
#[derive(Debug, Clone, Hash, PartialEq, Eq)]
pub struct Text {
    pub content: String,
    pub is_closed: bool,
}

/// The mathematical value of a [`TokenKind`]: strings are sequences of
/// characters.
pub enum TokenKindView {
    Invalid,
    Punctuator(Punctuator),
    Keyword(Keyword),
    Type(Type),
    Identifier(Seq<char>),
    BooleanLiteral(bool),
    IntegerLiteral(i64),
    StringLiteral { content: Seq<char>, is_closed: bool },
    Text { content: Seq<char>, is_closed: bool },
}

impl View for TokenKind {
    type V = TokenKindView;

    open spec fn view(&self) -> TokenKindView {
        match *self {
            TokenKind::Invalid => TokenKindView::Invalid,
            TokenKind::Punctuator(p) => TokenKindView::Punctuator(p),
            TokenKind::Keyword(k) => TokenKindView::Keyword(k),
            TokenKind::Type(t) => TokenKindView::Type(t),
            TokenKind::Identifier(i) => TokenKindView::Identifier(i.0@),
            TokenKind::BooleanLiteral(b) => TokenKindView::BooleanLiteral(b.0),
            TokenKind::IntegerLiteral(n) => TokenKindView::IntegerLiteral(n.0),
            TokenKind::StringLiteral(s) => TokenKindView::StringLiteral {
                content: s.content@,
                is_closed: s.is_closed,
            },
            TokenKind::Text(t) => TokenKindView::Text { content: t.content@, is_closed: t.is_closed },
        }
    }
}

/// The mathematical value of a token with its span.
pub type TokenView = (TokenKindView, Span);

/// The mathematical value of a list of tokens with their spans.
pub open spec fn tokens_view(tokens: Seq<(TokenKind, Span)>) -> Seq<TokenView> {
    Seq::new(tokens.len(), |i: int| (tokens[i].0@, tokens[i].1))
}

impl Identifier {
    /// Creates an identifier token from its name.
    pub fn new(name: &str) -> (r: Identifier)
        ensures
            r.0@ == name@,
    {
        Identifier(name.to_owned())
    }
}

impl From<Punctuator> for TokenKind {
    fn from(value: Punctuator) -> (r: TokenKind) {
        TokenKind::Punctuator(value)
    }
}

impl FromSpecImpl<Punctuator> for TokenKind {
    open spec fn obeys_from_spec() -> bool {
        true
    }

    open spec fn from_spec(value: Punctuator) -> TokenKind {
        TokenKind::Punctuator(value)
    }
}

impl From<Keyword> for TokenKind {
    fn from(value: Keyword) -> (r: TokenKind) {
        TokenKind::Keyword(value)
    }
}

impl FromSpecImpl<Keyword> for TokenKind {
    open spec fn obeys_from_spec() -> bool {
        true
    }

    open spec fn from_spec(value: Keyword) -> TokenKind {
        TokenKind::Keyword(value)
    }
}

impl From<Type> for TokenKind {
    fn from(value: Type) -> (r: TokenKind) {
        TokenKind::Type(value)
    }
}

impl FromSpecImpl<Type> for TokenKind {
    open spec fn obeys_from_spec() -> bool {
        true
    }

    open spec fn from_spec(value: Type) -> TokenKind {
        TokenKind::Type(value)
    }
}

impl From<Identifier> for TokenKind {
    fn from(value: Identifier) -> (r: TokenKind) {
        TokenKind::Identifier(value)
    }
}

impl FromSpecImpl<Identifier> for TokenKind {
    open spec fn obeys_from_spec() -> bool {
        true
    }

    open spec fn from_spec(value: Identifier) -> TokenKind {
        TokenKind::Identifier(value)
    }
}

impl From<BooleanLiteral> for TokenKind {
    fn from(value: BooleanLiteral) -> (r: TokenKind) {
        TokenKind::BooleanLiteral(value)
    }
}

impl FromSpecImpl<BooleanLiteral> for TokenKind {
    open spec fn obeys_from_spec() -> bool {
        true
    }

    open spec fn from_spec(value: BooleanLiteral) -> TokenKind {
        TokenKind::BooleanLiteral(value)
    }
}

impl From<IntegerLiteral> for TokenKind {
    fn from(value: IntegerLiteral) -> (r: TokenKind) {
        TokenKind::IntegerLiteral(value)
    }
}

impl FromSpecImpl<IntegerLiteral> for TokenKind {
    open spec fn obeys_from_spec() -> bool {
        true
    }

    open spec fn from_spec(value: IntegerLiteral) -> TokenKind {
        TokenKind::IntegerLiteral(value)
    }
}

impl From<StringLiteral> for TokenKind {
    fn from(value: StringLiteral) -> (r: TokenKind) {
        TokenKind::StringLiteral(value)
    }
}

impl FromSpecImpl<StringLiteral> for TokenKind {
    open spec fn obeys_from_spec() -> bool {
        true
    }

    open spec fn from_spec(value: StringLiteral) -> TokenKind {
        TokenKind::StringLiteral(value)
    }
}

impl From<Text> for TokenKind {
    fn from(value: Text) -> (r: TokenKind) {
        TokenKind::Text(value)
    }
}

impl FromSpecImpl<Text> for TokenKind {
    open spec fn obeys_from_spec() -> bool {
        true
    }

    open spec fn from_spec(value: Text) -> TokenKind {
        TokenKind::Text(value)
    }
}

/// The character that a punctuator is written with.
pub open spec fn punctuator_char(p: Punctuator) -> char {
    match p {
        Punctuator::LeftSquareBracket => '[',
        Punctuator::RightSquareBracket => ']',
        Punctuator::LeftCurlyBracket => '{',
        Punctuator::RightCurlyBracket => '}',
        Punctuator::Comma => ',',
        Punctuator::Colon => ':',
        Punctuator::Equals => '=',
        Punctuator::Dollar => '$',
        Punctuator::At => '@',
        Punctuator::Hash => '#',
    }
}

/// The word that a keyword is written with.
pub open spec fn keyword_text(k: Keyword) -> Seq<char> {
    match k {
        Keyword::Component => "component"@,
        Keyword::Default => "default"@,
        Keyword::Text => "text"@,
    }
}

/// How a punctuator is named in a message: the character in single quotes.
pub open spec fn punctuator_human_text(p: Punctuator) -> Seq<char> {
    seq!['\'', punctuator_char(p), '\'']
}

/// How a keyword is named in a message: the word in single quotes, then
/// `keyword`.
pub open spec fn keyword_human_text(k: Keyword) -> Seq<char> {
    seq!['\''] + keyword_text(k) + "' keyword"@
}

/// How a token is named in a message.
pub open spec fn token_human_text(t: TokenKindView) -> Seq<char> {
    match t {
        TokenKindView::Invalid => "invalid token"@,
        TokenKindView::Punctuator(p) => punctuator_human_text(p),
        TokenKindView::Keyword(k) => keyword_human_text(k),
        TokenKindView::Type(_) => "type"@,
        TokenKindView::Identifier(_) => "identifier"@,
        TokenKindView::BooleanLiteral(_) => "boolean"@,
        TokenKindView::IntegerLiteral(_) => "integer"@,
        TokenKindView::StringLiteral { .. } => "\"string literal\""@,
        TokenKindView::Text { .. } => "(text)"@,
    }
}

/// A name for a token that can stand in a message to a person.
pub trait TokenHumanDisplay {
    /// The name as a sequence of characters.
    spec fn human_text(&self) -> Seq<char>;

    /// The name as a string.
    fn to_human_string(&self) -> (r: String)
        ensures
            r@ == self.human_text(),
    ;
}

impl TokenHumanDisplay for Punctuator {
    open spec fn human_text(&self) -> Seq<char> {
        punctuator_human_text(*self)
    }

    fn to_human_string(&self) -> (r: String) {
        proof {
            reveal_strlit("'['");
            reveal_strlit("']'");
            reveal_strlit("'{'");
            reveal_strlit("'}'");
            reveal_strlit("','");
            reveal_strlit("':'");
            reveal_strlit("'='");
            reveal_strlit("'$'");
            reveal_strlit("'@'");
            reveal_strlit("'#'");
        }
        let text = match self {
            Punctuator::LeftSquareBracket => "'['",
            Punctuator::RightSquareBracket => "']'",
            Punctuator::LeftCurlyBracket => "'{'",
            Punctuator::RightCurlyBracket => "'}'",
            Punctuator::Comma => "','",
            Punctuator::Colon => "':'",
            Punctuator::Equals => "'='",
            Punctuator::Dollar => "'$'",
            Punctuator::At => "'@'",
            Punctuator::Hash => "'#'",
        };
        assert(text@ =~= punctuator_human_text(*self));
        text.to_owned()
    }
}

impl TokenHumanDisplay for Type {
    open spec fn human_text(&self) -> Seq<char> {
        "type"@
    }

    fn to_human_string(&self) -> (r: String) {
        "type".to_owned()
    }
}

impl TokenHumanDisplay for Keyword {
    open spec fn human_text(&self) -> Seq<char> {
        keyword_human_text(*self)
    }

    fn to_human_string(&self) -> (r: String) {
        proof {
            reveal_strlit("component");
            reveal_strlit("default");
            reveal_strlit("text");
            reveal_strlit("' keyword");
            reveal_strlit("'component' keyword");
            reveal_strlit("'default' keyword");
            reveal_strlit("'text' keyword");
        }
        let text = match self {
            Keyword::Component => "'component' keyword",
            Keyword::Default => "'default' keyword",
            Keyword::Text => "'text' keyword",
        };
        assert(text@ =~= keyword_human_text(*self));
        text.to_owned()
    }
}

impl TokenHumanDisplay for BooleanLiteral {
    open spec fn human_text(&self) -> Seq<char> {
        "boolean"@
    }

    fn to_human_string(&self) -> (r: String) {
        "boolean".to_owned()
    }
}

impl TokenHumanDisplay for Identifier {
    open spec fn human_text(&self) -> Seq<char> {
        "identifier"@
    }

    fn to_human_string(&self) -> (r: String) {
        "identifier".to_owned()
    }
}

impl TokenHumanDisplay for IntegerLiteral {
    open spec fn human_text(&self) -> Seq<char> {
        "integer"@
    }

    fn to_human_string(&self) -> (r: String) {
        "integer".to_owned()
    }
}

impl TokenHumanDisplay for StringLiteral {
    open spec fn human_text(&self) -> Seq<char> {
        "\"string literal\""@
    }

    fn to_human_string(&self) -> (r: String) {
        "\"string literal\"".to_owned()
    }
}

impl TokenHumanDisplay for Text {
    open spec fn human_text(&self) -> Seq<char> {
        "(text)"@
    }

    fn to_human_string(&self) -> (r: String) {
        "(text)".to_owned()
    }
}

impl TokenHumanDisplay for TokenKind {
    open spec fn human_text(&self) -> Seq<char> {
        token_human_text(self@)
    }

    fn to_human_string(&self) -> (r: String) {
        match self {
            TokenKind::Invalid => "invalid token".to_owned(),
            TokenKind::Punctuator(punctuator) => punctuator.to_human_string(),
            TokenKind::Keyword(keyword) => keyword.to_human_string(),
            TokenKind::Type(ty) => ty.to_human_string(),
            TokenKind::Identifier(identifier) => identifier.to_human_string(),
            TokenKind::BooleanLiteral(boolean) => boolean.to_human_string(),
            TokenKind::IntegerLiteral(integer) => integer.to_human_string(),
            TokenKind::StringLiteral(string) => string.to_human_string(),
            TokenKind::Text(text) => text.to_human_string(),
        }
    }
}

} // verus!
