use linelex::lexer::Lexer;
use linelex::token::Token;

#[test]
fn test_lexer_with_comment() {
    let mut lexer = Lexer::new(vec![String::from("// 1")]);
    let mut result = vec![Token::Comment];

    assert_eq!(lexer.next_line(), result);
    result.push(Token::Digit(1));
    assert_ne!(lexer.next_line(), result);
}

#[test]
fn test_basic_lexer() {
    let mut lexer = Lexer::new(vec![String::from("(+-) */.")]);
    let result = vec![
        Token::LeftParen,
        Token::Plus,
        Token::Minus,
        Token::RightParen,
        Token::Whitespace,
        Token::Times,
        Token::Divide,
        Token::Point,
    ];

    assert_eq!(lexer.next_line(), result);
}

#[test]
fn test_lexer_with_number() {
    let mut lexer = Lexer::new(vec![String::from("1*(-2.3+2)")]);
    let result = vec![
        Token::Digit(1),
        Token::Times,
        Token::LeftParen,
        Token::Minus,
        Token::Digit(2),
        Token::Point,
        Token::Digit(3),
        Token::Plus,
        Token::Digit(2),
        Token::RightParen,
    ];

    assert_eq!(lexer.next_line(), result);
}
