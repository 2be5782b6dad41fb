//! A line-oriented lexical scanner for a small arithmetic expression
//! language.
//!
//! The scanner holds a fixed sequence of text lines and a cursor. Each call
//! to [`lexer::Lexer::next_line`] classifies the next stored line into a
//! sequence of [`token::Token`] values: an empty line collapses to
//! `[Empty]`, a line starting with `//` collapses to `[Comment]`, and every
//! other line scans to one token per character.

pub mod lexer;
pub mod token;
