//! Shared core types: source spans, render settings, and the parse error
//! surface that every stage of the pipeline reports through.

pub mod class_list;
pub mod tokens;

use crate::parse_node::NodeType;
use vstd::prelude::*;

verus! {

/// A span of character offsets into the shared input buffer.
///
/// `start` and `end` are indices into the sequence of characters of the
/// input that a render call was given; `start <= end` for every span the
/// lexer produces.
#[derive(Clone, Copy, Debug, PartialEq, Eq, Structural)]
pub struct SourceLocation {
    /// Index of the first character covered by the span.
    pub start: usize,
    /// Index one past the last character covered by the span.
    pub end: usize,
}

impl SourceLocation {
    /// Combines two optional spans into the span that reaches from the start
    /// of the first to the end of the second, or `None` when either is absent.
    pub fn range(first: Option<SourceLocation>, second: Option<SourceLocation>) -> (r: Option<
        SourceLocation,
    >)
        ensures
            r == match (first, second) {
                (Some(a), Some(b)) => Some(SourceLocation { start: a.start, end: b.end }),
                _ => None::<SourceLocation>,
            },
    {
        match (first, second) {
            (Some(a), Some(b)) => Some(SourceLocation { start: a.start, end: b.end }),
            _ => None,
        }
    }
}

/// How a non-fatal compatibility condition is treated.
#[derive(Clone, Copy, Debug, PartialEq, Eq, Structural)]
pub enum StrictSetting {
    /// Continue silently.
    Ignore,
    /// Continue, but record the condition as a warning.
    Warn,
    /// Escalate the condition to a fatal parse error.
    Error,
}

/// Render-time configuration consulted by the lexer.
#[derive(Clone, Copy, Debug, PartialEq, Eq, Structural)]
pub struct Settings {
    /// Policy for non-fatal compatibility conditions.
    pub strict: StrictSetting,
}

impl Settings {
    /// Settings with the default lenient policy.
    pub fn new() -> (r: Settings)
        ensures
            r.strict == StrictSetting::Ignore,
    {
        Settings { strict: StrictSetting::Ignore }
    }
}

/// The closed set of fatal conditions the verified stages can report.
#[derive(Clone, Debug)]
pub enum ParseErrorKind {
    /// A character that no lexical rule accepts.
    UnexpectedCharacter {
        /// The offending character, as a one-character string.
        character: String,
    },
    /// A length literal whose unit is not understood.
    InvalidUnit {
        /// The unit text as written.
        unit: String,
    },
    /// A non-fatal condition escalated by the strict-mode policy.
    StrictModeError {
        /// The machine-readable code of the condition.
        code: String,
    },
    /// A builder was handed a node of the wrong kind.
    ExpectedNode {
        /// The kind of node the builder expected.
        node: NodeType,
    },
}

/// A fatal error carrying the place in the input it arose from.
#[derive(Clone, Debug)]
pub struct ParseError {
    /// What went wrong.
    pub kind: ParseErrorKind,
    /// Where it went wrong, when a span is known.
    pub loc: Option<SourceLocation>,
}

impl ParseError {
    /// An error without location information.
    pub fn new(kind: ParseErrorKind) -> (r: ParseError)
        ensures
            r.kind == kind,
            r.loc is None,
    {
        ParseError { kind, loc: None }
    }

    /// An error located at the span of the given token.
    pub fn with_token(kind: ParseErrorKind, token: &tokens::Token) -> (r: ParseError)
        ensures
            r.kind == kind,
            r.loc == token.loc,
    {
        ParseError { kind, loc: token.loc }
    }
}

} // verus!
