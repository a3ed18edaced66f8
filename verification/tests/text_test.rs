use monkey_lexer::text::{chars_of, same_text, substring};

#[test]
fn characters_of_a_string() {
    assert_eq!(chars_of(""), Vec::<char>::new());
    assert_eq!(chars_of("ab c"), vec!['a', 'b', ' ', 'c']);
    assert_eq!(chars_of("a€😀"), vec!['a', '€', '😀']);
}

#[test]
fn substring_by_positions() {
    let chars = vec!['l', 'e', 't', ' ', 'é', 'x'];
    assert_eq!(substring(&chars, 0, 3), "let");
    assert_eq!(substring(&chars, 4, 6), "éx");
    assert_eq!(substring(&chars, 2, 2), "");
    assert_eq!(substring(&chars, 6, 6), "");
    assert_eq!(substring(&chars, 0, 6), "let éx");
}

#[test]
fn same_text_compares_characters() {
    assert!(same_text("", ""));
    assert!(same_text("let", "let"));
    assert!(!same_text("let", "Let"));
    assert!(!same_text("let", "lets"));
    assert!(!same_text("lets", "let"));
    assert!(!same_text("", "a"));
    assert!(same_text("é€", "é€"));
    assert!(!same_text("é", "e"));
}
