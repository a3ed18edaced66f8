//! The scanner: a cursor over source text that hands out one token at a
//! time.

use crate::grammar::{
    digit, keyword, lemma_run_end_bounds, lemma_token_end_bounds, letter, next_item, run_end,
    token_at, token_end, token_start, tokens, tokens_from, CharClass,
};
use crate::text::{chars_of, escape, escaped, same_text, substring};
use crate::token::{Token, TokenView};
use vstd::prelude::*;

verus! {

/// Where a scanner stands: the character under the cursor, its position,
/// and the position that is read next.
#[derive(Clone, Copy, Debug)]
struct Cursor {
    position: usize,
    read_position: usize,
    ch: Option<char>,
}

impl Cursor {
    /// The cursor holds the character at `position`, or none at the end of
    /// `text`, and `read_position` is one step ahead while there is one.
    spec fn matches_text(self, text: Seq<char>) -> bool {
        &&& self.position <= self.read_position <= text.len()
        &&& match self.ch {
            Some(c) => {
                &&& self.position < text.len()
                &&& text[self.position as int] == c
                &&& self.read_position == self.position + 1
            },
            None => self.position == text.len(),
        }
    }
}

/// Moves a cursor to its `read_position`.
fn advance(input: &Vec<char>, cursor: Cursor) -> (next: Cursor)
    requires
        cursor.read_position <= input.len(),
    ensures
        next.matches_text(input@),
        next.position == cursor.read_position,
{
    if cursor.read_position >= input.len() {
        Cursor { position: cursor.read_position, read_position: cursor.read_position, ch: None }
    } else {
        Cursor {
            position: cursor.read_position,
            read_position: cursor.read_position + 1,
            ch: Some(input[cursor.read_position]),
        }
    }
}

/// The most characters of the text that [`Lexer::excerpt`] shows.
pub const EXCERPT_LENGTH: usize = 10;

/// A scanner over one source text. It owns a copy of the text, taken when
/// it is made, and a cursor into it that only moves forward; a cursor that
/// has reached the end of the text stays there.
#[derive(Debug)]
pub struct Lexer {
    input: Vec<char>,
    cursor: Cursor,
}

/// The mathematical value of a [`Lexer`]: the whole text, and the position
/// of the character under the cursor (the length of the text once the
/// scanner is exhausted).
pub struct LexerView {
    pub text: Seq<char>,
    pub position: int,
}

impl LexerView {
    /// The character under the cursor, or `None` once the scanner is
    /// exhausted.
    pub open spec fn current(self) -> Option<char> {
        if 0 <= self.position < self.text.len() {
            Some(self.text[self.position])
        } else {
            None
        }
    }

    /// The position that is read next: one step ahead of the cursor, or
    /// the end of the text once the cursor is there.
    pub open spec fn read_position(self) -> int {
        if self.position < self.text.len() {
            self.position + 1
        } else {
            self.position
        }
    }

    /// The text from the cursor onwards, cut off after [`EXCERPT_LENGTH`]
    /// characters.
    pub open spec fn window(self) -> Seq<char> {
        if self.text.len() - self.position > EXCERPT_LENGTH {
            self.text.subrange(self.position, self.position + EXCERPT_LENGTH)
        } else {
            self.text.subrange(self.position, self.text.len() as int)
        }
    }
}

impl View for Lexer {
    type V = LexerView;

    closed spec fn view(&self) -> LexerView {
        LexerView { text: self.input@, position: self.cursor.position as int }
    }
}

impl Lexer {
    #[verifier::type_invariant]
    spec fn inv(self) -> bool {
        self.cursor.matches_text(self.input@)
    }

    /// A scanner at the first character of `input`.
    pub fn new(input: &str) -> (lexer: Lexer)
        ensures
            lexer@.text == input@,
            lexer@.position == 0,
    {
        let chars = chars_of(input);
        let cursor = advance(&chars, Cursor { position: 0, read_position: 0, ch: None });
        Lexer { input: chars, cursor }
    }

    /// The position of the character under the cursor; the length of the
    /// text once the scanner is exhausted.
    pub fn position(&self) -> (at: usize)
        ensures
            at == self@.position,
            at <= self@.text.len(),
    {
        proof {
            use_type_invariant(self);
        }
        self.cursor.position
    }

    /// The position that is read next. It is never behind the cursor.
    pub fn read_position(&self) -> (at: usize)
        ensures
            at == self@.read_position(),
            self@.position <= at <= self@.text.len(),
    {
        proof {
            use_type_invariant(self);
        }
        self.cursor.read_position
    }

    /// The character under the cursor, or `None` once the scanner is
    /// exhausted.
    pub fn ch(&self) -> (c: Option<char>)
        ensures
            c == self@.current(),
    {
        proof {
            use_type_invariant(self);
        }
        self.cursor.ch
    }

    /// The text that lies ahead, for diagnostics: the characters from the
    /// cursor onwards, [`EXCERPT_LENGTH`] of them at most, on a single
    /// line.
    pub fn excerpt(&self) -> (shown: String)
        ensures
            shown@ == escaped(self@.window()),
    {
        proof {
            use_type_invariant(self);
        }
        let from = self.cursor.position;
        let to = if self.input.len() - from > EXCERPT_LENGTH {
            from + EXCERPT_LENGTH
        } else {
            self.input.len()
        };
        let window = substring(&self.input, from, to);
        escape(window.as_str())
    }

    /// Steps to the next character, or stays at the end of the text.
    fn read_char(&mut self)
        ensures
            final(self)@.text == old(self)@.text,
            old(self)@.position <= final(self)@.position <= final(self)@.text.len(),
            final(self)@.position == if old(self)@.position < old(self)@.text.len() {
                old(self)@.position + 1
            } else {
                old(self)@.position
            },
    {
        proof {
            use_type_invariant(&*self);
        }
        self.cursor = advance(&self.input, self.cursor);
    }

    /// The character after the one under the cursor, if there is one.
    fn peek_char(&self) -> (next: Option<char>)
        ensures
            next == if self@.position + 1 < self@.text.len() {
                Some(self@.text[self@.position + 1])
            } else {
                None::<char>
            },
    {
        proof {
            use_type_invariant(self);
        }
        if self.cursor.read_position >= self.input.len() {
            None
        } else {
            Some(self.input[self.cursor.read_position])
        }
    }

    /// Passes over whitespace.
    fn skip_whitespace(&mut self)
        ensures
            final(self)@.text == old(self)@.text,
            old(self)@.position <= final(self)@.position <= final(self)@.text.len(),
            final(self)@.position == token_start(old(self)@.text, old(self)@.position),
    {
        proof {
            use_type_invariant(&*self);
        }
        loop
            invariant
                self@.text == old(self)@.text,
                old(self)@.position <= self@.position <= self@.text.len(),
                token_start(self@.text, self@.position) == token_start(
                    old(self)@.text,
                    old(self)@.position,
                ),
            ensures
                self@.position == token_start(self@.text, self@.position),
            decreases self@.text.len() - self@.position,
        {
            proof {
                use_type_invariant(&*self);
            }
            match self.cursor.ch {
                Some(c) if c == ' ' || c == '\t' || c == '\n' || c == '\r' => {
                    self.read_char();
                },
                _ => {
                    break ;
                },
            }
        }
    }

    /// Reads the run of letters that begins under the cursor.
    fn read_identifier(&mut self) -> (text: String)
        ensures
            final(self)@.text == old(self)@.text,
            old(self)@.position <= final(self)@.position <= final(self)@.text.len(),
            final(self)@.position == run_end(
                old(self)@.text,
                old(self)@.position,
                CharClass::Letter,
            ),
            text@ == old(self)@.text.subrange(old(self)@.position, final(self)@.position),
    {
        proof {
            use_type_invariant(&*self);
        }
        let start = self.cursor.position;
        loop
            invariant
                self@.text == old(self)@.text,
                start == old(self)@.position,
                start <= self@.position <= self@.text.len(),
                run_end(self@.text, self@.position, CharClass::Letter) == run_end(
                    old(self)@.text,
                    old(self)@.position,
                    CharClass::Letter,
                ),
            ensures
                self@.position == run_end(self@.text, self@.position, CharClass::Letter),
            decreases self@.text.len() - self@.position,
        {
            proof {
                use_type_invariant(&*self);
            }
            match self.cursor.ch {
                Some(c) if is_letter(c) => {
                    self.read_char();
                },
                _ => {
                    break ;
                },
            }
        }
        proof {
            use_type_invariant(&*self);
        }
        substring(&self.input, start, self.cursor.position)
    }

    /// Reads the run of digits that begins under the cursor.
    fn read_number(&mut self) -> (text: String)
        ensures
            final(self)@.text == old(self)@.text,
            old(self)@.position <= final(self)@.position <= final(self)@.text.len(),
            final(self)@.position == run_end(
                old(self)@.text,
                old(self)@.position,
                CharClass::Digit,
            ),
            text@ == old(self)@.text.subrange(old(self)@.position, final(self)@.position),
    {
        proof {
            use_type_invariant(&*self);
        }
        let start = self.cursor.position;
        loop
            invariant
                self@.text == old(self)@.text,
                start == old(self)@.position,
                start <= self@.position <= self@.text.len(),
                run_end(self@.text, self@.position, CharClass::Digit) == run_end(
                    old(self)@.text,
                    old(self)@.position,
                    CharClass::Digit,
                ),
            ensures
                self@.position == run_end(self@.text, self@.position, CharClass::Digit),
            decreases self@.text.len() - self@.position,
        {
            proof {
                use_type_invariant(&*self);
            }
            match self.cursor.ch {
                Some(c) if is_digit(c) => {
                    self.read_char();
                },
                _ => {
                    break ;
                },
            }
        }
        proof {
            use_type_invariant(&*self);
        }
        substring(&self.input, start, self.cursor.position)
    }

    /// Reads the next token and moves past it. At the end of the text the
    /// token is `Eof`, and the scanner stays where it is: once exhausted,
    /// it is exhausted for good.
    pub fn next_token(&mut self) -> (token: Token)
        ensures
            final(self)@.text == old(self)@.text,
            0 <= old(self)@.position <= final(self)@.position <= final(self)@.text.len(),
            token@ == token_at(
                old(self)@.text,
                token_start(old(self)@.text, old(self)@.position),
            ),
            final(self)@.position == token_end(
                old(self)@.text,
                token_start(old(self)@.text, old(self)@.position),
            ),
            old(self)@.current() is None ==> token@ == TokenView::Eof && final(self)@ == old(self)@,
    {
        self.skip_whitespace();
        proof {
            use_type_invariant(&*self);
        }
        let token = match self.cursor.ch {
            Some('=') => match self.peek_char() {
                Some(c) if c == '=' => {
                    self.read_char();
                    Token::Eq
                },
                _ => Token::Assign,
            },
            Some(';') => Token::Semicolon,
            Some('(') => Token::LParen,
            Some(')') => Token::RParen,
            Some(',') => Token::Comma,
            Some('+') => Token::Plus,
            Some('-') => Token::Minus,
            Some('!') => match self.peek_char() {
                Some(c) if c == '=' => {
                    self.read_char();
                    Token::NotEq
                },
                _ => Token::Bang,
            },
            Some('*') => Token::Asterisk,
            Some('/') => Token::Slash,
            Some('<') => Token::Lt,
            Some('>') => Token::Gt,
            Some('{') => Token::LBrace,
            Some('}') => Token::RBrace,
            Some(c) => {
                if is_letter(c) {
                    let ident = self.read_identifier();
                    return match lookup_ident(ident.as_str()) {
                        Some(reserved) => reserved,
                        None => Token::Ident(ident),
                    };
                } else if is_digit(c) {
                    return Token::Int(self.read_number());
                } else {
                    Token::Illegal
                }
            },
            _ => Token::Eof,
        };
        self.read_char();
        token
    }

    /// The next token of the stream: like [`Lexer::next_token`], but the
    /// end of the text is `None` instead of a token.
    pub fn next(&mut self) -> (item: Option<Token>)
        ensures
            final(self)@.text == old(self)@.text,
            0 <= old(self)@.position <= final(self)@.position <= final(self)@.text.len(),
            final(self)@.position == token_end(
                old(self)@.text,
                token_start(old(self)@.text, old(self)@.position),
            ),
            item.deep_view() == next_item(old(self)@.text, old(self)@.position),
            old(self)@.current() is None ==> item is None && final(self)@ == old(self)@,
    {
        match self.next_token() {
            Token::Eof => None,
            token => Some(token),
        }
    }

    /// Reads all the tokens that are left, in order, and leaves the scanner
    /// at the end of the text.
    pub fn drain(&mut self) -> (found: Vec<Token>)
        ensures
            final(self)@.text == old(self)@.text,
            0 <= old(self)@.position <= final(self)@.position == final(self)@.text.len(),
            found.deep_view() == tokens_from(old(self)@.text, old(self)@.position),
    {
        proof {
            use_type_invariant(&*self);
        }
        let mut found: Vec<Token> = Vec::new();
        loop
            invariant
                self@.text == old(self)@.text,
                old(self)@.position <= self@.position,
                found.deep_view() + tokens_from(self@.text, self@.position) == tokens_from(
                    old(self)@.text,
                    old(self)@.position,
                ),
            ensures
                self@.position == self@.text.len(),
                found.deep_view() == tokens_from(old(self)@.text, old(self)@.position),
            decreases self@.text.len() - self@.position,
        {
            proof {
                use_type_invariant(&*self);
                lemma_run_end_bounds(self@.text, self@.position, CharClass::Whitespace);
            }
            let ghost before = found.deep_view();
            let ghost start = token_start(self@.text, self@.position);
            match self.next() {
                Some(token) => {
                    proof {
                        lemma_token_end_bounds(self@.text, start);
                    }
                    found.push(token);
                    assert(found.deep_view() == before.push(token@));
                },
                None => {
                    break ;
                },
            }
        }
        found
    }
}

/// The tokens of `input`: what a fresh scanner over it reads until the end.
pub fn tokenize(input: &str) -> (found: Vec<Token>)
    ensures
        found.deep_view() == tokens(input@),
{
    let mut lexer = Lexer::new(input);
    lexer.drain()
}

/// Whether `c` may stand in an identifier.
pub fn is_letter(c: char) -> (yes: bool)
    ensures
        yes == letter(c),
{
    match c {
        'a'..='z' | 'A'..='Z' | '_' => true,
        _ => false,
    }
}

/// Whether `c` may stand in an integer literal.
pub fn is_digit(c: char) -> (yes: bool)
    ensures
        yes == digit(c),
{
    match c {
        '0'..='9' => true,
        _ => false,
    }
}

/// The keyword that `ident` spells, or `None` where it spells no keyword.
pub fn lookup_ident(ident: &str) -> (reserved: Option<Token>)
    ensures
        reserved.deep_view() == keyword(ident@),
{
    if same_text(ident, "fn") {
        Some(Token::Function)
    } else if same_text(ident, "let") {
        Some(Token::Let)
    } else if same_text(ident, "if") {
        Some(Token::If)
    } else if same_text(ident, "else") {
        Some(Token::Else)
    } else if same_text(ident, "return") {
        Some(Token::Return)
    } else if same_text(ident, "true") {
        Some(Token::True)
    } else if same_text(ident, "false") {
        Some(Token::False)
    } else {
        None
    }
}

} // verus!
