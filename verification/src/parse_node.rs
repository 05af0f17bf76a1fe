//! The typed nodes the parser builds and the handlers consume.
//!
//! The node type is a closed union; every variant carries its mode and the
//! span of the input it came from. A node owns its children until a builder
//! consumes it.

use crate::types::SourceLocation;
use vstd::prelude::*;

verus! {

/// Whether a node was parsed in math or in text mode.
#[derive(Clone, Copy, Debug, PartialEq, Eq, Structural)]
pub enum Mode {
    /// Math mode.
    Math,
    /// Text mode.
    Text,
}

/// TeX's spacing class of a symbol.
#[derive(Clone, Copy, Debug, PartialEq, Eq, Structural)]
pub enum Atom {
    /// A binary operator.
    Bin,
    /// A relation.
    Rel,
    /// An opening delimiter.
    Open,
    /// A closing delimiter.
    Close,
    /// Punctuation.
    Punct,
    /// An inner expression.
    Inner,
    /// An ordinary symbol.
    Ord,
}

/// The spacing class an output node renders with.
#[derive(Clone, Copy, Debug, PartialEq, Eq, Structural)]
pub enum DomType {
    /// Ordinary.
    Mord,
    /// A large operator.
    Mop,
    /// A binary operator.
    Mbin,
    /// A relation.
    Mrel,
    /// An opening delimiter.
    Mopen,
    /// A closing delimiter.
    Mclose,
    /// Punctuation.
    Mpunct,
    /// An inner expression.
    Minner,
}

/// The kind of node a registered function builds.
#[derive(Clone, Copy, Debug, PartialEq, Eq, Structural)]
pub enum NodeType {
    /// A spacing-class wrapper node.
    Mclass,
    /// An ordinary group.
    OrdGroup,
    /// A base with superscript or subscript.
    SupSub,
    /// An operator.
    Op,
    /// A single symbol.
    Atom,
}

/// A node of the parsed tree.
#[derive(Debug)]
pub enum AnyParseNode {
    /// A single symbol with its spacing class.
    Atom {
        /// The symbol's spacing class.
        family: Atom,
        /// The mode it was parsed in.
        mode: Mode,
        /// The span it came from.
        loc: Option<SourceLocation>,
        /// The symbol's text.
        text: String,
    },
    /// A braced group of nodes.
    OrdGroup {
        /// The mode it was parsed in.
        mode: Mode,
        /// The span it came from.
        loc: Option<SourceLocation>,
        /// The nodes inside the braces.
        body: Vec<AnyParseNode>,
    },
    /// A group of nodes rendered under an explicit spacing class.
    Mclass {
        /// The mode it was parsed in.
        mode: Mode,
        /// The span it came from.
        loc: Option<SourceLocation>,
        /// The spacing class to render with.
        mclass: DomType,
        /// The wrapped nodes.
        body: Vec<AnyParseNode>,
        /// Whether the wrapped content is a single character box.
        is_character_box: bool,
    },
    /// A base with an optional superscript and subscript.
    SupSub {
        /// The mode it was parsed in.
        mode: Mode,
        /// The span it came from.
        loc: Option<SourceLocation>,
        /// The base the scripts attach to.
        base: Option<Box<AnyParseNode>>,
        /// The superscript, if any.
        sup: Option<Box<AnyParseNode>>,
        /// The subscript, if any.
        sub: Option<Box<AnyParseNode>>,
    },
    /// An operator with a body.
    Op {
        /// The mode it was parsed in.
        mode: Mode,
        /// The span it came from.
        loc: Option<SourceLocation>,
        /// Whether scripts set above and below rather than to the side.
        limits: bool,
        /// Whether scripts are laid out here even without limits.
        always_handle_sup_sub: Option<bool>,
        /// Whether the base keeps its natural vertical position.
        suppress_base_shift: Option<bool>,
        /// Whether the operator sits directly under a script node.
        parent_is_sup_sub: bool,
        /// The operator's body.
        body: Vec<AnyParseNode>,
    },
}

impl AnyParseNode {
    /// The mode a node was parsed in.
    pub open spec fn mode_spec(&self) -> Mode {
        match self {
            AnyParseNode::Atom { mode, .. } => *mode,
            AnyParseNode::OrdGroup { mode, .. } => *mode,
            AnyParseNode::Mclass { mode, .. } => *mode,
            AnyParseNode::SupSub { mode, .. } => *mode,
            AnyParseNode::Op { mode, .. } => *mode,
        }
    }

    /// Returns the mode the node was parsed in.
    pub fn mode(&self) -> (r: Mode)
        ensures
            r == self.mode_spec(),
    {
        match self {
            AnyParseNode::Atom { mode, .. } => *mode,
            AnyParseNode::OrdGroup { mode, .. } => *mode,
            AnyParseNode::Mclass { mode, .. } => *mode,
            AnyParseNode::SupSub { mode, .. } => *mode,
            AnyParseNode::Op { mode, .. } => *mode,
        }
    }

    /// Whether a node renders as a single character box: a symbol, or a
    /// one-element group whose element does.
    pub open spec fn is_character_box_spec(&self) -> bool
        decreases self,
    {
        match self {
            AnyParseNode::Atom { .. } => true,
            AnyParseNode::OrdGroup { body, .. } => body@.len() == 1
                && body@[0].is_character_box_spec(),
            _ => false,
        }
    }

    /// Decides whether a node renders as a single character box, which the
    /// builders use for adjacency-sensitive rendering.
    pub fn is_character_box(&self) -> (r: bool)
        ensures
            r == self.is_character_box_spec(),
        decreases *self,
    {
        match self {
            AnyParseNode::Atom { .. } => true,
            AnyParseNode::OrdGroup { body, .. } => {
                if body.len() == 1 {
                    body[0].is_character_box()
                } else {
                    false
                }
            },
            _ => false,
        }
    }
}

/// The argument list a group argument stands for: the group's own body, or
/// the argument itself as a one-node list.
pub open spec fn ord_argument_spec(body: AnyParseNode) -> Seq<AnyParseNode> {
    match body {
        AnyParseNode::OrdGroup { body: inner, .. } => inner@,
        _ => seq![body],
    }
}

/// Unwraps a group argument into the node list it stands for.
pub fn ord_argument(body: AnyParseNode) -> (r: Vec<AnyParseNode>)
    ensures
        r@ == ord_argument_spec(body),
{
    match body {
        AnyParseNode::OrdGroup { body: inner, .. } => inner,
        other => {
            let mut v: Vec<AnyParseNode> = Vec::new();
            v.push(other);
            proof {
                assert(v@ =~= ord_argument_spec(other));
            }
            v
        },
    }
}

} // verus!
