//! The lexical grammar, as mathematics.
//!
//! Source text is a sequence of characters and a position in it is an
//! integer. Everything here is specification: [`token_at`] and
//! [`token_end`] say which token starts at a position and where it stops,
//! and [`tokens_from`] is the whole stream read from a position onwards.

use crate::token::TokenView;
use vstd::prelude::*;

verus! {

/// Space, tab, line feed or carriage return.
pub open spec fn whitespace(c: char) -> bool {
    c == ' ' || c == '\t' || c == '\n' || c == '\r'
}

/// An ASCII letter or the underscore.
pub open spec fn letter(c: char) -> bool {
    ('a' <= c && c <= 'z') || ('A' <= c && c <= 'Z') || c == '_'
}

/// An ASCII decimal digit.
pub open spec fn digit(c: char) -> bool {
    '0' <= c && c <= '9'
}

/// The three kinds of character that are read as a run.
pub enum CharClass {
    Whitespace,
    Letter,
    Digit,
}

impl CharClass {
    pub open spec fn has(self, c: char) -> bool {
        match self {
            CharClass::Whitespace => whitespace(c),
            CharClass::Letter => letter(c),
            CharClass::Digit => digit(c),
        }
    }
}

/// Where the run of `class` characters that begins at `i` stops: the first
/// position at or after `i` that holds no character of `class`.
pub open spec fn run_end(s: Seq<char>, i: int, class: CharClass) -> int
    decreases s.len() - i,
{
    if 0 <= i < s.len() && class.has(s[i]) {
        run_end(s, i + 1, class)
    } else {
        i
    }
}

/// The reserved word spelled by `text`, if it is one.
pub open spec fn keyword(text: Seq<char>) -> Option<TokenView> {
    if text == "fn"@ {
        Some(TokenView::Function)
    } else if text == "let"@ {
        Some(TokenView::Let)
    } else if text == "if"@ {
        Some(TokenView::If)
    } else if text == "else"@ {
        Some(TokenView::Else)
    } else if text == "return"@ {
        Some(TokenView::Return)
    } else if text == "true"@ {
        Some(TokenView::True)
    } else if text == "false"@ {
        Some(TokenView::False)
    } else {
        None
    }
}

/// The characters that a token is written with in source text. `Eof` is
/// written with none; `Illegal` stands for any one character that has no
/// meaning and so has no spelling of its own, and is given none here.
pub open spec fn spelling(token: TokenView) -> Seq<char> {
    match token {
        TokenView::Illegal => Seq::empty(),
        TokenView::Eof => Seq::empty(),
        TokenView::Ident(text) => text,
        TokenView::Int(text) => text,
        TokenView::Assign => "="@,
        TokenView::Plus => "+"@,
        TokenView::Minus => "-"@,
        TokenView::Bang => "!"@,
        TokenView::Asterisk => "*"@,
        TokenView::Slash => "/"@,
        TokenView::Lt => "<"@,
        TokenView::Gt => ">"@,
        TokenView::Eq => "=="@,
        TokenView::NotEq => "!="@,
        TokenView::Comma => ","@,
        TokenView::Semicolon => ";"@,
        TokenView::LParen => "("@,
        TokenView::RParen => ")"@,
        TokenView::LBrace => "{"@,
        TokenView::RBrace => "}"@,
        TokenView::Function => "fn"@,
        TokenView::Let => "let"@,
        TokenView::If => "if"@,
        TokenView::Else => "else"@,
        TokenView::Return => "return"@,
        TokenView::True => "true"@,
        TokenView::False => "false"@,
    }
}

/// The token for a run of letters: its keyword, or else an identifier.
pub open spec fn word(text: Seq<char>) -> TokenView {
    match keyword(text) {
        Some(reserved) => reserved,
        None => TokenView::Ident(text),
    }
}

/// Whether `=` stands right after position `p`.
pub open spec fn followed_by_equals(s: Seq<char>, p: int) -> bool {
    p + 1 < s.len() && s[p + 1] == '='
}

/// The token that starts at `p`. Past the end of the text that is `Eof`.
pub open spec fn token_at(s: Seq<char>, p: int) -> TokenView {
    if !(0 <= p < s.len()) {
        TokenView::Eof
    } else if s[p] == '=' {
        if followed_by_equals(s, p) {
            TokenView::Eq
        } else {
            TokenView::Assign
        }
    } else if s[p] == '!' {
        if followed_by_equals(s, p) {
            TokenView::NotEq
        } else {
            TokenView::Bang
        }
    } else if s[p] == ';' {
        TokenView::Semicolon
    } else if s[p] == '(' {
        TokenView::LParen
    } else if s[p] == ')' {
        TokenView::RParen
    } else if s[p] == ',' {
        TokenView::Comma
    } else if s[p] == '+' {
        TokenView::Plus
    } else if s[p] == '-' {
        TokenView::Minus
    } else if s[p] == '*' {
        TokenView::Asterisk
    } else if s[p] == '/' {
        TokenView::Slash
    } else if s[p] == '<' {
        TokenView::Lt
    } else if s[p] == '>' {
        TokenView::Gt
    } else if s[p] == '{' {
        TokenView::LBrace
    } else if s[p] == '}' {
        TokenView::RBrace
    } else if letter(s[p]) {
        word(s.subrange(p, run_end(s, p, CharClass::Letter)))
    } else if digit(s[p]) {
        TokenView::Int(s.subrange(p, run_end(s, p, CharClass::Digit)))
    } else {
        TokenView::Illegal
    }
}

/// The position just after the token that starts at `p`. Past the end of
/// the text nothing is left to consume, and the position stays.
pub open spec fn token_end(s: Seq<char>, p: int) -> int {
    if !(0 <= p < s.len()) {
        p
    } else if (s[p] == '=' || s[p] == '!') && followed_by_equals(s, p) {
        p + 2
    } else if letter(s[p]) {
        run_end(s, p, CharClass::Letter)
    } else if digit(s[p]) {
        run_end(s, p, CharClass::Digit)
    } else {
        p + 1
    }
}

/// Where the next token starts when reading resumes at `i`: whitespace is
/// passed over.
pub open spec fn token_start(s: Seq<char>, i: int) -> int {
    run_end(s, i, CharClass::Whitespace)
}

/// A run stops at or after the position where it begins, and within the text.
pub proof fn lemma_run_end_bounds(s: Seq<char>, i: int, class: CharClass)
    ensures
        i <= run_end(s, i, class),
        i <= s.len() ==> run_end(s, i, class) <= s.len(),
    decreases s.len() - i,
{
    if 0 <= i < s.len() && class.has(s[i]) {
        lemma_run_end_bounds(s, i + 1, class);
    }
}

/// A token inside the text is at least one character long and ends within
/// the text.
pub proof fn lemma_token_end_bounds(s: Seq<char>, p: int)
    requires
        0 <= p < s.len(),
    ensures
        p < token_end(s, p) <= s.len(),
{
    lemma_run_end_bounds(s, p + 1, CharClass::Letter);
    lemma_run_end_bounds(s, p + 1, CharClass::Digit);
}

/// What a stream hands out next when reading resumes at `i`: the token
/// that starts there, or `None` where only whitespace is left.
pub open spec fn next_item(s: Seq<char>, i: int) -> Option<TokenView> {
    let p = token_start(s, i);
    if 0 <= p < s.len() {
        Some(token_at(s, p))
    } else {
        None
    }
}

/// The tokens read from position `i` onwards, up to the end of the text
/// and without the closing `Eof`.
pub open spec fn tokens_from(s: Seq<char>, i: int) -> Seq<TokenView>
    decreases s.len() - i,
{
    let p = token_start(s, i);
    if 0 <= p < s.len() {
        proof {
            lemma_run_end_bounds(s, i, CharClass::Whitespace);
            lemma_token_end_bounds(s, p);
        }
        seq![token_at(s, p)] + tokens_from(s, token_end(s, p))
    } else {
        Seq::empty()
    }
}

/// The positions at which the tokens of [`tokens_from`] start, in order.
pub open spec fn starts_from(s: Seq<char>, i: int) -> Seq<int>
    decreases s.len() - i,
{
    let p = token_start(s, i);
    if 0 <= p < s.len() {
        proof {
            lemma_run_end_bounds(s, i, CharClass::Whitespace);
            lemma_token_end_bounds(s, p);
        }
        seq![p] + starts_from(s, token_end(s, p))
    } else {
        Seq::empty()
    }
}

/// The tokens of a whole text.
pub open spec fn tokens(s: Seq<char>) -> Seq<TokenView> {
    tokens_from(s, 0)
}

} // verus!
