use linelex::lexer::Lexer;
use linelex::token::Token;

#[test]
fn test_empty_line() {
    let mut lexer = Lexer::new(vec![String::from("")]);
    assert_eq!(lexer.next_line(), vec![Token::Empty]);
}

#[test]
fn test_comment_only_slashes() {
    let mut lexer = Lexer::new(vec![String::from("//")]);
    assert_eq!(lexer.next_line(), vec![Token::Comment]);
}

#[test]
fn test_comment_with_trailing_content() {
    let mut lexer = Lexer::new(vec![String::from("//1+2*(3)")]);
    assert_eq!(lexer.next_line(), vec![Token::Comment]);
}

#[test]
fn test_unknown_letter() {
    let mut lexer = Lexer::new(vec![String::from("a")]);
    assert_eq!(lexer.next_line(), vec![Token::Unknown]);
}

#[test]
fn test_digit_line() {
    let mut lexer = Lexer::new(vec![String::from("007")]);
    assert_eq!(
        lexer.next_line(),
        vec![Token::Digit(0), Token::Digit(0), Token::Digit(7)]
    );
}

#[test]
fn test_unknown_within_line() {
    let mut lexer = Lexer::new(vec![String::from("1a+")]);
    assert_eq!(
        lexer.next_line(),
        vec![Token::Digit(1), Token::Unknown, Token::Plus]
    );
}

#[test]
fn test_two_lines_in_order() {
    let mut lexer = Lexer::new(vec![String::from("1+2"), String::from("// x")]);
    assert_eq!(
        lexer.next_line(),
        vec![Token::Digit(1), Token::Plus, Token::Digit(2)]
    );
    assert_eq!(lexer.next_line(), vec![Token::Comment]);
}

#[test]
fn test_repeated_content_same_tokens() {
    let mut lexer = Lexer::new(vec![
        String::from("5."),
        String::from("// c"),
        String::from("5."),
    ]);
    let first = lexer.next_line();
    let _comment = lexer.next_line();
    let third = lexer.next_line();
    assert_eq!(first, vec![Token::Digit(5), Token::Point]);
    assert_eq!(first, third);
}

#[test]
fn test_past_end_returns_empty() {
    let mut lexer = Lexer::new(vec![String::from("9")]);
    assert_eq!(lexer.next_line(), vec![Token::Digit(9)]);
    assert_eq!(lexer.next_line(), vec![Token::Empty]);
    assert_eq!(lexer.next_line(), vec![Token::Empty]);
}

#[test]
fn test_no_lines_at_all() {
    let mut lexer = Lexer::new(vec![]);
    assert_eq!(lexer.next_line(), vec![Token::Empty]);
}

#[test]
fn test_single_slash_is_divide() {
    let mut lexer = Lexer::new(vec![String::from("/1")]);
    assert_eq!(lexer.next_line(), vec![Token::Divide, Token::Digit(1)]);
}

#[test]
fn test_whitespace_line() {
    let mut lexer = Lexer::new(vec![String::from(" ")]);
    assert_eq!(lexer.next_line(), vec![Token::Whitespace]);
}
