use monkey_lexer::repl::{step, Step};
use monkey_lexer::token::Token;

fn printed(next: Step) -> Vec<Token> {
    match next {
        Step::Print(tokens) => tokens,
        Step::Stop => panic!("the session ended"),
    }
}

#[test]
fn failed_read_ends_the_session() {
    assert!(matches!(step(None), Step::Stop));
}

#[test]
fn bare_line_feed_ends_the_session() {
    assert!(matches!(step(Some("\n")), Step::Stop));
}

#[test]
fn line_is_scanned() {
    assert_eq!(
        printed(step(Some("let five = 5;\n"))),
        vec![
            Token::Let,
            Token::Ident("five".to_string()),
            Token::Assign,
            Token::Int("5".to_string()),
            Token::Semicolon,
        ]
    );
}

#[test]
fn other_blank_lines_go_on() {
    assert_eq!(printed(step(Some(" \n"))), vec![]);
    assert_eq!(printed(step(Some("\r\n"))), vec![]);
    assert_eq!(printed(step(Some("\n\n"))), vec![]);
    assert_eq!(printed(step(Some(""))), vec![]);
}

#[test]
fn line_without_line_feed() {
    assert_eq!(printed(step(Some("x"))), vec![Token::Ident("x".to_string())]);
}
