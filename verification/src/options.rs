//! The immutable rendering context threaded through tree building.
//!
//! An `Options` value is never changed in place: every scoped change, such
//! as switching to script style for an exponent, derives a new value that
//! shares every unrelated field. Sibling subtrees built before and after a
//! derivation therefore cannot observe each other's context.
//!
//! The numeric scaling data that accompanies these fields in the renderer,
//! such as the size multiplier, is derived from the size by the font
//! metrics and lives with them.

use vstd::prelude::*;

verus! {

/// The four math styles, each with a cramped variant.
#[derive(Clone, Copy, Debug, PartialEq, Eq, Structural)]
pub enum StyleKind {
    /// Display style.
    Display,
    /// Text style.
    Text,
    /// Script style.
    Script,
    /// Second-level script style.
    ScriptScript,
}

/// A math style: the kind and whether it is the cramped variant.
#[derive(Clone, Copy, Debug, PartialEq, Eq, Structural)]
pub struct Style {
    /// Which of the four styles this is.
    pub kind: StyleKind,
    /// Whether this is the cramped variant.
    pub cramped: bool,
}

impl Style {
    /// Whether the style is one of the tight script styles.
    pub open spec fn is_tight_spec(&self) -> bool {
        self.kind == StyleKind::Script || self.kind == StyleKind::ScriptScript
    }

    /// Returns whether the style is one of the tight script styles.
    pub fn is_tight(&self) -> (r: bool)
        ensures
            r == self.is_tight_spec(),
    {
        match self.kind {
            StyleKind::Script | StyleKind::ScriptScript => true,
            _ => false,
        }
    }

    /// Returns the text-style counterpart of this style, keeping the
    /// cramped variant.
    pub fn text(&self) -> (r: Style)
        ensures
            r.kind == StyleKind::Text,
            r.cramped == self.cramped,
    {
        Style { kind: StyleKind::Text, cramped: self.cramped }
    }
}

/// The base size index used until a sizing command changes it.
pub const BASE_SIZE: usize = 6;

/// The rendering context: the style, size and color under which a subtree
/// is built.
#[derive(Debug)]
pub struct Options {
    /// The current math style.
    pub style: Style,
    /// The current size index.
    pub size: usize,
    /// The current color, when one was set.
    pub color: Option<String>,
    /// The current font family, empty when unset.
    pub font: String,
    /// Whether content renders invisibly, taking space only.
    pub phantom: bool,
}

fn clone_color(color: &Option<String>) -> (r: Option<String>)
    ensures
        r == *color,
{
    match color {
        Some(c) => Some(c.clone()),
        None => None,
    }
}

impl Options {
    /// The default context: uncramped text style at the base size, with no
    /// color, font or phantom flag set.
    pub fn new() -> (r: Options)
        ensures
            r.style == (Style { kind: StyleKind::Text, cramped: false }),
            r.size == BASE_SIZE,
            r.color is None,
            r.font@.len() == 0,
            r.phantom == false,
    {
        Options {
            style: Style { kind: StyleKind::Text, cramped: false },
            size: BASE_SIZE,
            color: None,
            font: String::new(),
            phantom: false,
        }
    }

    /// Derives the context for building under the given style; every other
    /// field is shared. Asking for the style already in force returns a
    /// context that agrees with this one in every field.
    pub fn having_style(&self, style: Style) -> (r: Options)
        ensures
            r.style == style,
            r.size == self.size,
            r.color == self.color,
            r.font == self.font,
            r.phantom == self.phantom,
            style == self.style ==> r == *self,
    {
        Options {
            style,
            size: self.size,
            color: clone_color(&self.color),
            font: self.font.clone(),
            phantom: self.phantom,
        }
    }

    /// Derives the context for building at the given size; every other
    /// field is shared. Asking for the size already in force returns a
    /// context that agrees with this one in every field.
    pub fn having_size(&self, size: usize) -> (r: Options)
        ensures
            r.style == self.style,
            r.size == size,
            r.color == self.color,
            r.font == self.font,
            r.phantom == self.phantom,
            size == self.size ==> r == *self,
    {
        Options {
            style: self.style,
            size,
            color: clone_color(&self.color),
            font: self.font.clone(),
            phantom: self.phantom,
        }
    }

    /// Derives the context for building under the given color; every other
    /// field is shared.
    pub fn with_color(&self, color: String) -> (r: Options)
        ensures
            r.style == self.style,
            r.size == self.size,
            r.color == Some(color),
            r.font == self.font,
            r.phantom == self.phantom,
    {
        Options {
            style: self.style,
            size: self.size,
            color: Some(color),
            font: self.font.clone(),
            phantom: self.phantom,
        }
    }

    /// Derives the context for building phantom content: invisible, taking
    /// space only; every other field is shared.
    pub fn with_phantom(&self) -> (r: Options)
        ensures
            r.style == self.style,
            r.size == self.size,
            r.color == self.color,
            r.font == self.font,
            r.phantom == true,
    {
        Options {
            style: self.style,
            size: self.size,
            color: clone_color(&self.color),
            font: self.font.clone(),
            phantom: true,
        }
    }
}

} // verus!
