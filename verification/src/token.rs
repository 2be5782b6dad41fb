//! The token alphabet of the expression language, and the classification of
//! a single character.

use vstd::prelude::*;

verus! {

/// One lexical token of the small arithmetic expression language.
///
/// A scanned content line yields one token per character; an empty line and
/// a comment line each collapse to a single `Empty` or `Comment` token.
#[derive(Clone, Copy, Debug, PartialEq, Eq, Structural)]
pub enum Token {
    /// `(`
    LeftParen,
    /// `)`
    RightParen,
    /// `+`
    Plus,
    /// `-`
    Minus,
    /// `*`
    Times,
    /// `/`
    Divide,
    /// One decimal digit, carrying its value `0` through `9`.
    Digit(u8),
    /// `.`
    Point,
    /// A line whose first two characters are `//`.
    Comment,
    /// A line with no characters.
    Empty,
    /// A character outside the recognized alphabet.
    Unknown,
    /// A space character.
    Whitespace,
}

impl Token {
    /// A token is well formed when a `Digit` payload lies in `0 ..= 9`;
    /// every other variant is well formed as it stands.
    pub open spec fn wf(self) -> bool {
        match self {
            Token::Digit(d) => d <= 9,
            _ => true,
        }
    }
}

/// True of the ten decimal digit characters `'0'` through `'9'`.
pub open spec fn is_digit_char(c: char) -> bool {
    '0' as int <= c as int <= '9' as int
}

/// The numeric value of a decimal digit character.
pub open spec fn digit_value(c: char) -> u8
    recommends
        is_digit_char(c),
{
    (c as int - '0' as int) as u8
}

/// True of the characters the scanner recognizes; every other character in a
/// content line scans to `Unknown`.
pub open spec fn recognized(c: char) -> bool {
    ||| c == '('
    ||| c == ')'
    ||| c == '+'
    ||| c == '-'
    ||| c == '*'
    ||| c == '/'
    ||| is_digit_char(c)
    ||| c == '.'
    ||| c == ' '
}

/// The token that one character of a content line scans to.
pub open spec fn token_of_char(c: char) -> Token {
    if c == '(' {
        Token::LeftParen
    } else if c == ')' {
        Token::RightParen
    } else if c == '+' {
        Token::Plus
    } else if c == '-' {
        Token::Minus
    } else if c == '*' {
        Token::Times
    } else if c == '/' {
        Token::Divide
    } else if is_digit_char(c) {
        Token::Digit(digit_value(c))
    } else if c == '.' {
        Token::Point
    } else if c == ' ' {
        Token::Whitespace
    } else {
        Token::Unknown
    }
}

/// Every character classifies to a well-formed token: in particular a digit
/// character's value lies in `0 ..= 9`.
pub proof fn lemma_token_of_char_wf(c: char)
    ensures
        token_of_char(c).wf(),
{
}

/// A character outside the recognized alphabet classifies to `Unknown`, and
/// only such a character does.
pub proof fn lemma_unrecognized_char(c: char)
    ensures
        token_of_char(c) == Token::Unknown <==> !recognized(c),
{
}

/// Classifies one character of a content line.
pub fn classify_char(c: char) -> (t: Token)
    ensures
        t == token_of_char(c),
        t.wf(),
{
    match c {
        '(' => Token::LeftParen,
        ')' => Token::RightParen,
        '+' => Token::Plus,
        '-' => Token::Minus,
        '*' => Token::Times,
        '/' => Token::Divide,
        '0' => Token::Digit(0),
        '1' => Token::Digit(1),
        '2' => Token::Digit(2),
        '3' => Token::Digit(3),
        '4' => Token::Digit(4),
        '5' => Token::Digit(5),
        '6' => Token::Digit(6),
        '7' => Token::Digit(7),
        '8' => Token::Digit(8),
        '9' => Token::Digit(9),
        '.' => Token::Point,
        ' ' => Token::Whitespace,
        _ => Token::Unknown,
    }
}

} // verus!
