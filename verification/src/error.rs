//! The errors of the parsers.

use crate::text::{concat, copy_of};
use vstd::prelude::*;

verus! {

/// A text that matched no rule of the grammar it was read with.
#[derive(Clone, Debug, PartialEq, Eq)]
pub enum ParseError {
    /// The text is no command; it carries the text as it was given.
    InvalidCommand(String),
    /// The text is no key chord; it carries the text as it was given.
    InvalidKey(String),
}

/// What a parse error says, with the text that caused it.
pub enum ParseErrorView {
    /// The text is no command.
    InvalidCommand(Seq<char>),
    /// The text is no key chord.
    InvalidKey(Seq<char>),
}

impl View for ParseError {
    type V = ParseErrorView;

    open spec fn view(&self) -> ParseErrorView {
        match self {
            ParseError::InvalidCommand(text) => ParseErrorView::InvalidCommand(text@),
            ParseError::InvalidKey(text) => ParseErrorView::InvalidKey(text@),
        }
    }
}

impl ParseError {
    /// The message that tells the user what was wrong.
    pub fn to_string(&self) -> (r: String)
        ensures
            r@ == match self@ {
                ParseErrorView::InvalidCommand(text) => "invalid command: "@ + text,
                ParseErrorView::InvalidKey(text) => "invalid key: "@ + text,
            },
    {
        match self {
            ParseError::InvalidCommand(text) => concat("invalid command: ", text.as_str()),
            ParseError::InvalidKey(text) => concat("invalid key: ", text.as_str()),
        }
    }

    /// The text that could not be read.
    pub fn text(&self) -> (r: String)
        ensures
            r@ == match self@ {
                ParseErrorView::InvalidCommand(text) => text,
                ParseErrorView::InvalidKey(text) => text,
            },
    {
        match self {
            ParseError::InvalidCommand(text) => copy_of(text.as_str()),
            ParseError::InvalidKey(text) => copy_of(text.as_str()),
        }
    }
}

} // verus!
