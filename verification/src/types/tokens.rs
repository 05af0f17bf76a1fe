//! Lexical tokens and their textual payload.
//!
//! Token text either borrows a range of the shared input buffer, owns a
//! string synthesized during macro expansion, or points at a static literal.
//! All positions and lengths count characters of the input, so that every
//! contract can speak in terms of the input's character sequence.

use crate::types::SourceLocation;
use std::sync::Arc;
use vstd::prelude::*;

verus! {

/// Textual payload of a [`Token`].
#[derive(Debug)]
pub enum TokenText {
    /// A range of characters of the shared input buffer.
    Slice {
        /// Shared reference to the original input.
        source: Arc<String>,
        /// Index of the first character of the text.
        start: usize,
        /// Index one past the last character of the text.
        end: usize,
    },
    /// A standalone heap string.
    Owned(String),
    /// A static string literal.
    Static(&'static str),
}

impl View for TokenText {
    type V = Seq<char>;

    open spec fn view(&self) -> Seq<char> {
        match self {
            TokenText::Slice { source, start, end } => source@.subrange(
                *start as int,
                *end as int,
            ),
            TokenText::Owned(text) => text@,
            TokenText::Static(text) => text@,
        }
    }
}

impl TokenText {
    /// A slice variant is well-formed when its range lies inside its source.
    pub open spec fn wf(&self) -> bool {
        match self {
            TokenText::Slice { source, start, end } => *start <= *end <= source@.len(),
            _ => true,
        }
    }

    /// Creates a borrowed range of an input buffer.
    pub fn slice(source: Arc<String>, start: usize, end: usize) -> (r: TokenText)
        requires
            start <= end <= source@.len(),
        ensures
            r.wf(),
            r@ == source@.subrange(start as int, end as int),
    {
        TokenText::Slice { source, start, end }
    }

    /// Returns the string slice represented by this token text.
    pub fn as_str<'a>(&'a self) -> (r: &'a str)
        requires
            self.wf(),
        ensures
            r@ == self@,
    {
        match self {
            TokenText::Slice { source, start, end } => {
                let s: &String = &**source;
                s.as_str().substring_char(*start, *end)
            },
            TokenText::Owned(text) => text.as_str(),
            TokenText::Static(text) => text,
        }
    }

    /// Returns the length in characters of the token text.
    pub fn len(&self) -> (r: usize)
        requires
            self.wf(),
        ensures
            r == self@.len(),
    {
        self.as_str().unicode_len()
    }

    /// Returns `true` when the token text is empty.
    pub fn is_empty(&self) -> (r: bool)
        requires
            self.wf(),
        ensures
            r == (self@.len() == 0),
    {
        self.len() == 0
    }

    /// Copies the token text into an owned string.
    pub fn to_owned_string(&self) -> (r: String)
        requires
            self.wf(),
        ensures
            r@ == self@,
    {
        String::from_str(self.as_str())
    }

    /// Replaces the contents of a string buffer with this token text.
    pub fn clone_into(&self, buf: &mut String)
        requires
            self.wf(),
        ensures
            final(buf)@ == self@,
    {
        *buf = String::from_str(self.as_str());
    }
}

/// A single lexical unit of the input, with provenance and expansion flags.
#[derive(Debug)]
pub struct Token {
    /// The raw text of the token, backslash and command name included.
    pub text: TokenText,
    /// The span of the input this token came from, when one is known.
    pub loc: Option<SourceLocation>,
    /// When set, macro expansion must leave this token untouched.
    pub noexpand: Option<bool>,
    /// When set, the token behaves as the do-nothing primitive.
    pub treat_as_relax: Option<bool>,
}

impl Token {
    /// A token is well-formed when its text is.
    pub open spec fn wf(&self) -> bool {
        self.text.wf()
    }

    /// Creates a token with the given text and optional span.
    pub fn new(text: TokenText, loc: Option<SourceLocation>) -> (r: Token)
        ensures
            r.text == text,
            r.loc == loc,
            r.noexpand is None,
            r.treat_as_relax is None,
    {
        Token { text, loc, noexpand: None, treat_as_relax: None }
    }

    /// Returns the token text as a string slice.
    pub fn text<'a>(&'a self) -> (r: &'a str)
        requires
            self.wf(),
        ensures
            r@ == self.text@,
    {
        self.text.as_str()
    }

    /// Replaces the textual payload of the token.
    pub fn set_text(&mut self, text: TokenText)
        ensures
            final(self).text == text,
            final(self).loc == old(self).loc,
            final(self).noexpand == old(self).noexpand,
            final(self).treat_as_relax == old(self).treat_as_relax,
    {
        self.text = text;
    }

    /// Builds a token spanning from this token to `end_token`, carrying the
    /// given text, or `None` when either span is missing.
    pub fn range(self, end_token: Token, text: TokenText) -> (r: Option<Token>)
        ensures
            match (self.loc, end_token.loc) {
                (Some(a), Some(b)) => match r {
                    Some(t) => t.text == text && t.loc == Some(
                        SourceLocation { start: a.start, end: b.end },
                    ) && t.noexpand is None && t.treat_as_relax is None,
                    None => false,
                },
                _ => r is None,
            },
    {
        match SourceLocation::range(self.loc, end_token.loc) {
            Some(loc) => Some(Token { text, loc: Some(loc), noexpand: None, treat_as_relax: None }),
            None => None,
        }
    }
}

} // verus!
