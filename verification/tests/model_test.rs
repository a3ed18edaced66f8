use monkey_lexer::lexer::{tokenize, Lexer};
use monkey_lexer::token::Token;

/// A plain scanner written without regard to speed: at each position it
/// looks at what is there and says how many characters the token takes.
fn model(text: &[char]) -> Vec<(Token, usize)> {
    let mut out = Vec::new();
    let mut i = 0;
    while i < text.len() {
        let c = text[i];
        if c == ' ' || c == '\t' || c == '\n' || c == '\r' {
            i += 1;
            continue;
        }
        let next_is_equals = i + 1 < text.len() && text[i + 1] == '=';
        let (token, width) = match c {
            '=' if next_is_equals => (Token::Eq, 2),
            '!' if next_is_equals => (Token::NotEq, 2),
            '=' => (Token::Assign, 1),
            '!' => (Token::Bang, 1),
            ';' => (Token::Semicolon, 1),
            '(' => (Token::LParen, 1),
            ')' => (Token::RParen, 1),
            ',' => (Token::Comma, 1),
            '+' => (Token::Plus, 1),
            '-' => (Token::Minus, 1),
            '*' => (Token::Asterisk, 1),
            '/' => (Token::Slash, 1),
            '<' => (Token::Lt, 1),
            '>' => (Token::Gt, 1),
            '{' => (Token::LBrace, 1),
            '}' => (Token::RBrace, 1),
            _ if c.is_ascii_alphabetic() || c == '_' => {
                let run: String = text[i..]
                    .iter()
                    .take_while(|c| c.is_ascii_alphabetic() || **c == '_')
                    .collect();
                let width = run.len();
                let token = match run.as_str() {
                    "fn" => Token::Function,
                    "let" => Token::Let,
                    "if" => Token::If,
                    "else" => Token::Else,
                    "return" => Token::Return,
                    "true" => Token::True,
                    "false" => Token::False,
                    _ => Token::Ident(run),
                };
                (token, width)
            }
            _ if c.is_ascii_digit() => {
                let run: String = text[i..].iter().take_while(|c| c.is_ascii_digit()).collect();
                let width = run.len();
                (Token::Int(run), width)
            }
            _ => (Token::Illegal, 1),
        };
        out.push((token, width));
        i += width;
    }
    out
}

fn check(text: &[char]) {
    let input: String = text.iter().collect();
    let expected = model(text);
    let found = tokenize(&input);
    assert_eq!(found.len(), expected.len(), "in {:?}", input);
    for (token, (want, _)) in found.iter().zip(expected.iter()) {
        assert_eq!(token, want, "in {:?}", input);
    }
    let blanks = text.iter().filter(|c| " \t\n\r".contains(**c)).count();
    let consumed: usize = expected.iter().map(|(_, width)| width).sum();
    assert_eq!(consumed + blanks, text.len(), "in {:?}", input);

    let mut lexer = Lexer::new(&input);
    for (want, _) in expected.iter() {
        assert_eq!(lexer.next_token(), *want, "in {:?}", input);
    }
    assert_eq!(lexer.next_token(), Token::Eof, "in {:?}", input);
    assert_eq!(lexer.next_token(), Token::Eof, "in {:?}", input);
}

fn check_all(alphabet: &[char], length: usize) {
    let mut text = vec![alphabet[0]; length];
    let mut digits = vec![0usize; length];
    loop {
        check(&text);
        let mut place = 0;
        loop {
            if place == length {
                return;
            }
            digits[place] += 1;
            if digits[place] < alphabet.len() {
                text[place] = alphabet[digits[place]];
                break;
            }
            digits[place] = 0;
            text[place] = alphabet[0];
            place += 1;
        }
    }
}

#[test]
fn agrees_with_model_on_short_texts() {
    let alphabet = ['a', '_', 'Z', '7', '=', '!', ' ', '\n', ';', '@', 'é'];
    for length in 0..5 {
        check_all(&alphabet, length);
    }
}

#[test]
fn agrees_with_model_on_keyword_letters() {
    let alphabet = ['i', 'f', 'n', 'l', 'e', 't', ' ', '0'];
    for length in 0..6 {
        check_all(&alphabet, length);
    }
}

#[test]
fn agrees_with_model_on_every_ascii_character() {
    for code in 0u8..128 {
        let c = code as char;
        check(&[c]);
        check(&['a', c, 'b']);
        check(&['1', c, '2']);
        check(&['=', c, '=']);
        check(&[c, '=']);
        check(&['!', c]);
        check(&[c, c]);
    }
}

#[test]
fn agrees_with_model_on_longer_words() {
    for word in [
        "return", "returns", "retur", "false", "falsey", "true", "truer", "else", "elsee",
        "function", "lettuce", "iffy", "RETURN", "Return", "_return", "return_", "re turn",
        "return1", "1return", "returnfalse", "return false", "true==false", "let=fn",
    ] {
        let text: Vec<char> = word.chars().collect();
        check(&text);
    }
}
