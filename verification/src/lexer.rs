//! The scanner: stored lines, a cursor, and line-by-line classification.

use vstd::prelude::*;
use crate::token::{Token, classify_char, digit_value, is_digit_char, recognized, token_of_char};
use vstd::string::StrSliceExecFns;

verus! {

/// The token sequence a content line scans to: one token per character, each
/// classified independently.
pub open spec fn tokens_of_content(s: Seq<char>) -> Seq<Token> {
    s.map(|i: int, c: char| token_of_char(c))
}

/// True of lines whose first two characters are `/` `/`.
pub open spec fn is_comment_line(s: Seq<char>) -> bool {
    s.len() >= 2 && s[0] == '/' && s[1] == '/'
}

/// The classification of one stored line: empty and comment lines collapse
/// to a single token, every other line scans character by character.
pub open spec fn tokens_of_line(s: Seq<char>) -> Seq<Token> {
    if s.len() == 0 {
        seq![Token::Empty]
    } else if is_comment_line(s) {
        seq![Token::Comment]
    } else {
        tokens_of_content(s)
    }
}

/// What a scan of the line at index `k` of the stored lines returns: past
/// the last stored line every request yields `[Empty]`.
pub open spec fn line_result(lines: Seq<Seq<char>>, k: int) -> Seq<Token> {
    if 0 <= k < lines.len() {
        tokens_of_line(lines[k])
    } else {
        seq![Token::Empty]
    }
}

/// Every token a line scans to is well formed: in particular every `Digit`
/// payload lies in `0 ..= 9`.
pub proof fn lemma_line_tokens_wf(s: Seq<char>)
    ensures
        forall|i: int|
            0 <= i < tokens_of_line(s).len() ==> (#[trigger] tokens_of_line(s)[i]).wf(),
{
    assert forall|i: int|
        0 <= i < tokens_of_line(s).len() implies (#[trigger] tokens_of_line(s)[i]).wf() by {
        if s.len() > 0 && !is_comment_line(s) {
            crate::token::lemma_token_of_char_wf(s[i]);
        }
    }
}

/// A non-empty line made only of decimal digits scans to `Digit` tokens
/// carrying the digits' values, in order, and to nothing else.
pub proof fn lemma_digit_line(s: Seq<char>)
    requires
        s.len() > 0,
        forall|i: int| 0 <= i < s.len() ==> is_digit_char(#[trigger] s[i]),
    ensures
        tokens_of_line(s).len() == s.len(),
        forall|i: int|
            0 <= i < s.len() ==> tokens_of_line(s)[i] == Token::Digit(digit_value(s[i])),
{
    assert(!is_comment_line(s));
}

/// An empty line scans to exactly `[Empty]`.
pub proof fn lemma_empty_line(s: Seq<char>)
    requires
        s.len() == 0,
    ensures
        tokens_of_line(s) == seq![Token::Empty],
{
}

/// A line whose first two characters are `//` scans to exactly `[Comment]`,
/// regardless of what follows them.
pub proof fn lemma_comment_line(s: Seq<char>)
    requires
        s.len() >= 2,
        s[0] == '/',
        s[1] == '/',
    ensures
        tokens_of_line(s) == seq![Token::Comment],
{
}

/// In a scanned content line, a character outside the recognized alphabet
/// puts an `Unknown` token at exactly its own position.
pub proof fn lemma_unknown_at_position(s: Seq<char>, i: int)
    requires
        s.len() > 0,
        !is_comment_line(s),
        0 <= i < s.len(),
        !recognized(s[i]),
    ensures
        tokens_of_line(s).len() == s.len(),
        tokens_of_line(s)[i] == Token::Unknown,
{
    crate::token::lemma_unrecognized_char(s[i]);
}

/// Classification is content-pure: two stored lines with the same characters
/// scan to the same tokens, whatever their positions in the session.
pub proof fn lemma_classification_content_pure(lines: Seq<Seq<char>>, i: int, j: int)
    requires
        0 <= i < lines.len(),
        0 <= j < lines.len(),
        lines[i] == lines[j],
    ensures
        line_result(lines, i) == line_result(lines, j),
{
}

/// The scanner. It owns the full set of input lines and a cursor giving the
/// index of the line the next request will produce; the lines themselves are
/// never changed or reordered.
pub struct Lexer {
    lines: Vec<String>,
    cursor: usize,
}

impl Lexer {
    /// The stored lines, each as its sequence of characters.
    pub closed spec fn lines_view(&self) -> Seq<Seq<char>> {
        self.lines.deep_view()
    }

    /// The index of the line the next call to `next_line` will produce.
    pub closed spec fn cursor_view(&self) -> int {
        self.cursor as int
    }

    /// Builds a scanner over the given lines, with the cursor before the
    /// first one. An empty sequence of lines is legal: every request then
    /// falls past the end.
    pub fn new(lines: Vec<String>) -> (lexer: Lexer)
        ensures
            lexer.lines_view() == lines.deep_view(),
            lexer.cursor_view() == 0,
    {
        Lexer { lines, cursor: 0 }
    }

    /// Scans the next stored line and advances the cursor by exactly one.
    /// The result is the line's classification; past the last stored line
    /// every call keeps returning `[Empty]`.
    pub fn next_line(&mut self) -> (tokens: Vec<Token>)
        requires
            old(self).cursor_view() < usize::MAX,
        ensures
            final(self).lines_view() == old(self).lines_view(),
            final(self).cursor_view() == old(self).cursor_view() + 1,
            tokens@ == line_result(old(self).lines_view(), old(self).cursor_view()),
    {
        let idx: usize = self.cursor;
        self.cursor = self.cursor + 1;

        if idx >= self.lines.len() {
            let mut tokens: Vec<Token> = Vec::new();
            tokens.push(Token::Empty);
            proof {
                assert(tokens@ =~= seq![Token::Empty]);
            }
            return tokens;
        }

        let line: &str = self.lines[idx].as_str();
        let ghost s: Seq<char> = line@;

        let n: usize = line.unicode_len();
        if n == 0 {
            let mut tokens: Vec<Token> = Vec::new();
            tokens.push(Token::Empty);
            proof {
                assert(tokens@ =~= seq![Token::Empty]);
            }
            return tokens;
        }

        if n >= 2 && line.get_char(0) == '/' && line.get_char(1) == '/' {
            let mut tokens: Vec<Token> = Vec::new();
            tokens.push(Token::Comment);
            proof {
                assert(tokens@ =~= seq![Token::Comment]);
            }
            return tokens;
        }

        let mut tokens: Vec<Token> = Vec::new();
        let mut i: usize = 0;
        while i < n
            invariant
                n == s.len(),
                i <= n,
                tokens@ == tokens_of_content(s).take(i as int),
                s == line@,
            decreases n - i,
        {
            let c: char = line.get_char(i);
            tokens.push(classify_char(c));
            proof {
                assert(tokens@ =~= tokens_of_content(s).take(i + 1));
            }
            i = i + 1;
        }
        proof {
            assert(tokens@ =~= tokens_of_content(s));
        }
        tokens
    }
}

} // verus!

