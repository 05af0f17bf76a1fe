//! A verified core for a TeX/LaTeX math typesetting pipeline.
//!
//! The crate lexes TeX control sequences, models token text with shared
//! provenance into the input buffer, validates and formats length units,
//! derives immutable rendering contexts, and carries the math-class
//! handlers and registry used when building the output trees. Around the
//! core it also verifies the pure decision logic of the screenshot
//! regression harness and of the build-time data extraction.

pub mod context;
pub mod extract;
pub mod lexer;
pub mod mclass;
pub mod options;
pub mod parse_node;
pub mod screenshot;
pub mod strutil;
pub mod tree;
pub mod types;
pub mod units;
