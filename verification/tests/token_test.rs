use monkey_lexer::lexer::{is_digit, is_letter, lookup_ident};
use monkey_lexer::token::Token;

#[test]
fn lookup_of_each_keyword() {
    assert_eq!(lookup_ident("fn"), Some(Token::Function));
    assert_eq!(lookup_ident("let"), Some(Token::Let));
    assert_eq!(lookup_ident("if"), Some(Token::If));
    assert_eq!(lookup_ident("else"), Some(Token::Else));
    assert_eq!(lookup_ident("return"), Some(Token::Return));
    assert_eq!(lookup_ident("true"), Some(Token::True));
    assert_eq!(lookup_ident("false"), Some(Token::False));
}

#[test]
fn lookup_of_other_text() {
    assert_eq!(lookup_ident("lets"), None);
    assert_eq!(lookup_ident("iffy"), None);
    assert_eq!(lookup_ident("Fn"), None);
    assert_eq!(lookup_ident(""), None);
    assert_eq!(lookup_ident("f"), None);
    assert_eq!(lookup_ident("fnn"), None);
    assert_eq!(lookup_ident("LET"), None);
    assert_eq!(lookup_ident("If"), None);
    assert_eq!(lookup_ident(" let"), None);
    assert_eq!(lookup_ident("let "), None);
    assert_eq!(lookup_ident("True"), None);
    assert_eq!(lookup_ident("fals"), None);
    assert_eq!(lookup_ident("returns"), None);
    assert_eq!(lookup_ident("elsé"), None);
    assert_eq!(lookup_ident("five"), None);
}

#[test]
fn letters() {
    for c in ['a', 'm', 'z', 'A', 'M', 'Z', '_'] {
        assert!(is_letter(c));
    }
    for c in ['`', '{', '@', '[', '0', '9', ' ', '-', 'é', 'ß', 'Ω', '\n'] {
        assert!(!is_letter(c));
    }
}

#[test]
fn digits() {
    for c in ['0', '1', '5', '9'] {
        assert!(is_digit(c));
    }
    for c in ['/', ':', 'a', '_', ' ', '٣', '²'] {
        assert!(!is_digit(c));
    }
}

#[test]
fn tokens_compare_by_kind_and_text() {
    assert_eq!(Token::Ident("a".to_string()), Token::Ident("a".to_string()));
    assert_ne!(Token::Ident("a".to_string()), Token::Ident("b".to_string()));
    assert_ne!(Token::Ident("1".to_string()), Token::Int("1".to_string()));
    assert_eq!(Token::Int("1".to_string()), Token::Int("1".to_string()));
    assert_ne!(Token::Int("1".to_string()), Token::Int("01".to_string()));
    assert_ne!(Token::Eq, Token::Assign);
    assert_ne!(Token::NotEq, Token::Bang);
    assert_ne!(Token::Illegal, Token::Eof);
    assert_ne!(Token::Let, Token::Ident("let".to_string()));
    let all = [
        Token::Illegal,
        Token::Eof,
        Token::Ident("x".to_string()),
        Token::Int("0".to_string()),
        Token::Assign,
        Token::Plus,
        Token::Minus,
        Token::Bang,
        Token::Asterisk,
        Token::Slash,
        Token::Lt,
        Token::Gt,
        Token::Eq,
        Token::NotEq,
        Token::Comma,
        Token::Semicolon,
        Token::LParen,
        Token::RParen,
        Token::LBrace,
        Token::RBrace,
        Token::Function,
        Token::Let,
        Token::If,
        Token::Else,
        Token::Return,
        Token::True,
        Token::False,
    ];
    for (i, a) in all.iter().enumerate() {
        for (j, b) in all.iter().enumerate() {
            assert_eq!(a == b, i == j);
        }
    }
}

#[test]
fn clone_is_equal() {
    let tokens = [
        Token::Ident("five".to_string()),
        Token::Int("10".to_string()),
        Token::Let,
        Token::Eof,
        Token::Illegal,
        Token::NotEq,
    ];
    for token in tokens.iter() {
        assert_eq!(token.clone(), *token);
    }
}

#[test]
fn debug_rendering() {
    assert_eq!(format!("{:?}", Token::Let), "Let");
    assert_eq!(format!("{:?}", Token::Ident("five".to_string())), "Ident(\"five\")");
    assert_eq!(format!("{:?}", Token::Int("5".to_string())), "Int(\"5\")");
    assert_eq!(format!("{:?}", Token::Illegal), "Illegal");
}
