//! The two output tree shapes: visual nodes styled by CSS classes, and
//! accessibility nodes mirroring MathML elements.

use crate::parse_node::Mode;
use crate::types::class_list::ClassList;
use vstd::prelude::*;

verus! {

/// A node of the visual output tree.
#[derive(Debug)]
pub enum HtmlDomNode {
    /// A container styled by its CSS classes.
    Span {
        /// The CSS classes of the container.
        classes: ClassList,
        /// The children in order.
        children: Vec<HtmlDomNode>,
    },
    /// A single rendered symbol.
    Symbol {
        /// The mode the symbol was parsed in.
        mode: Mode,
        /// The symbol's text.
        text: String,
        /// The CSS classes of the symbol.
        classes: ClassList,
    },
}

/// Builds a container node carrying one static CSS class.
pub fn make_span(class: &'static str, children: Vec<HtmlDomNode>) -> (r: HtmlDomNode)
    ensures
        r == (HtmlDomNode::Span { classes: ClassList::Static(class), children }),
{
    HtmlDomNode::Span { classes: ClassList::Static(class), children }
}

/// The MathML element kinds the accessibility tree uses.
#[derive(Clone, Copy, Debug, PartialEq, Eq, Structural)]
pub enum MathNodeType {
    /// An identifier element.
    Mi,
    /// An operator element.
    Mo,
    /// A number element.
    Mn,
    /// A text element.
    Mtext,
    /// A row of children.
    Mrow,
    /// A padded container.
    Mpadded,
}

/// A MathML element: its kind, its children and its attributes.
#[derive(Debug)]
pub struct MathNode {
    /// The element kind.
    pub node_type: MathNodeType,
    /// The children in order.
    pub children: Vec<MathDomNode>,
    /// Attribute names and values, in insertion order.
    pub attributes: Vec<(String, String)>,
}

/// A node of the accessibility tree: an element or a text run.
#[derive(Debug)]
pub enum MathDomNode {
    /// A MathML element.
    Math(MathNode),
    /// A plain text run.
    Text(String),
}

/// The attribute pairs of an element, by their contents.
pub open spec fn attr_views(attrs: Seq<(String, String)>) -> Seq<(Seq<char>, Seq<char>)> {
    attrs.map(|i: int, p: (String, String)| (p.0@, p.1@))
}

impl MathNode {
    /// Builds an element of the given kind over the given children, with no
    /// attributes.
    pub fn new(node_type: MathNodeType, children: Vec<MathDomNode>) -> (r: MathNode)
        ensures
            r.node_type == node_type,
            r.children == children,
            r.attributes@.len() == 0,
    {
        MathNode { node_type, children, attributes: Vec::new() }
    }
}

} // verus!
