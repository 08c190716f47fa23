//! Classes of characters, and the few operations on characters and strings
//! that are taken from elsewhere.

use vstd::prelude::*;
use unicode_xid::UnicodeXID;
use crate::token::Punctuator;

verus! {

/// Whether a character has the Unicode property `XID_Start`.
pub uninterp spec fn xid_start(c: char) -> bool;

/// Whether a character has the Unicode property `XID_Continue`.
pub uninterp spec fn xid_continue(c: char) -> bool;

/// An ASCII letter.
pub open spec fn is_ascii_letter(c: char) -> bool {
    ('a' <= c && c <= 'z') || ('A' <= c && c <= 'Z')
}

/// A decimal digit.
pub open spec fn is_digit(c: char) -> bool {
    '0' <= c && c <= '9'
}

/// The first character of an integer literal: a digit or a minus sign.
pub open spec fn is_integer_head(c: char) -> bool {
    c == '-' || is_digit(c)
}

/// The first character of an identifier.
pub open spec fn is_identifier_head(c: char) -> bool {
    xid_start(c) || c == '_'
}

/// A character that continues an identifier.
pub open spec fn is_identifier_tail(c: char) -> bool {
    xid_continue(c) || c == '_'
}

/// A character of a line ending.
pub open spec fn is_newline(c: char) -> bool {
    c == '\n' || c == '\r'
}

/// A space or a tab.
pub open spec fn is_blank(c: char) -> bool {
    c == ' ' || c == '\t'
}

/// The punctuator that a character stands for, if it stands for one.
pub open spec fn punctuator_of(c: char) -> Option<Punctuator> {
    if c == '[' {
        Some(Punctuator::LeftSquareBracket)
    } else if c == ']' {
        Some(Punctuator::RightSquareBracket)
    } else if c == '{' {
        Some(Punctuator::LeftCurlyBracket)
    } else if c == '}' {
        Some(Punctuator::RightCurlyBracket)
    } else if c == ',' {
        Some(Punctuator::Comma)
    } else if c == ':' {
        Some(Punctuator::Colon)
    } else if c == '=' {
        Some(Punctuator::Equals)
    } else if c == '$' {
        Some(Punctuator::Dollar)
    } else if c == '@' {
        Some(Punctuator::At)
    } else if c == '#' {
        Some(Punctuator::Hash)
    } else {
        None
    }
}

/// Calls `UnicodeXID::is_xid_start` of the crate `unicode-xid`. The result is
/// the character's property `XID_Start`; for a character up to U+007F that is
/// to be an ASCII letter.
#[verifier::external_body]
pub(crate) fn has_xid_start(c: char) -> (r: bool)
    ensures
        r == xid_start(c),
        c <= '\x7f' ==> r == is_ascii_letter(c),
{
    UnicodeXID::is_xid_start(c)
}

/// Calls `UnicodeXID::is_xid_continue` of the crate `unicode-xid`. The result
/// is the character's property `XID_Continue`; for a character up to U+007F
/// that is to be an ASCII letter, a digit or an underscore.
#[verifier::external_body]
pub(crate) fn has_xid_continue(c: char) -> (r: bool)
    ensures
        r == xid_continue(c),
        c <= '\x7f' ==> r == (is_ascii_letter(c) || is_digit(c) || c == '_'),
{
    UnicodeXID::is_xid_continue(c)
}

/// `String::push` appends one character to the string.
pub assume_specification[ std::string::String::push ](s: &mut std::string::String, c: char)
    ensures
        final(s)@ == old(s)@.push(c),
;

/// Tells whether a character can start an identifier.
pub fn identifier_head(c: char) -> (r: bool)
    ensures
        r == is_identifier_head(c),
{
    has_xid_start(c) || c == '_'
}

/// Tells whether a character can continue an identifier.
pub fn identifier_tail(c: char) -> (r: bool)
    ensures
        r == is_identifier_tail(c),
{
    has_xid_continue(c) || c == '_'
}

/// Tells whether a character is a decimal digit.
pub fn integer_tail(c: char) -> (r: bool)
    ensures
        r == is_digit(c),
{
    '0' <= c && c <= '9'
}

/// Tells whether a character can start an integer literal.
pub fn integer_head(c: char) -> (r: bool)
    ensures
        r == is_integer_head(c),
{
    c == '-' || integer_tail(c)
}

/// Tells whether a character belongs to a line ending.
pub fn newline(c: char) -> (r: bool)
    ensures
        r == is_newline(c),
{
    c == '\n' || c == '\r'
}

/// Tells whether a character is a space or a tab.
pub fn whitespace_except_newline(c: char) -> (r: bool)
    ensures
        r == is_blank(c),
{
    c == ' ' || c == '\t'
}

/// The punctuator that a character stands for, if it stands for one.
pub fn punctuator(c: char) -> (r: Option<Punctuator>)
    ensures
        r == punctuator_of(c),
{
    if c == '[' {
        Some(Punctuator::LeftSquareBracket)
    } else if c == ']' {
        Some(Punctuator::RightSquareBracket)
    } else if c == '{' {
        Some(Punctuator::LeftCurlyBracket)
    } else if c == '}' {
        Some(Punctuator::RightCurlyBracket)
    } else if c == ',' {
        Some(Punctuator::Comma)
    } else if c == ':' {
        Some(Punctuator::Colon)
    } else if c == '=' {
        Some(Punctuator::Equals)
    } else if c == '$' {
        Some(Punctuator::Dollar)
    } else if c == '@' {
        Some(Punctuator::At)
    } else if c == '#' {
        Some(Punctuator::Hash)
    } else {
        None
    }
}

/// The characters of a string, in order.
pub fn characters(text: &str) -> (r: Vec<char>)
    ensures
        r@ == text@,
{
    let mut out: Vec<char> = Vec::new();
    for c in it: text.chars()
        invariant
            it.seq() == text@,
            out@ == it.seq().take(it.index() as int),
    {
        out.push(c);
    }
    out
}

/// Tells whether the characters of `text` from `start` up to `end` spell
/// `word`.
pub fn spells(text: &Vec<char>, start: usize, end: usize, word: &str) -> (r: bool)
    requires
        start <= end <= text@.len(),
    ensures
        r == (text@.subrange(start as int, end as int) == word@),
{
    let n: usize = word.unicode_len();
    if end - start != n {
        return false;
    }
    let mut k: usize = 0;
    while k < n
        invariant
            k <= n,
            n == word@.len(),
            end - start == n,
            start <= end <= text@.len(),
            forall|j: int| 0 <= j < k ==> text@[start + j] == word@[j],
        decreases n - k,
    {
        if text[start + k] != word.get_char(k) {
            assert(text@.subrange(start as int, end as int)[k as int] != word@[k as int]);
            return false;
        }
        k += 1;
    }
    assert(text@.subrange(start as int, end as int) =~= word@);
    true
}

} // verus!
