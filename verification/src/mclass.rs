//! The math-class commands: wrapping content under an explicit spacing
//! class, rendering one argument with the class of another, and stacking
//! one argument over or under the other.

use crate::context::{FunctionDefSpec, HandlerKind, KatexContext};
use crate::parse_node::{
    ord_argument, ord_argument_spec, AnyParseNode, Atom, DomType, Mode, NodeType,
};
use crate::strutil::str_eq;
use crate::tree::{attr_views, make_span, HtmlDomNode, MathDomNode, MathNode, MathNodeType};
use crate::types::class_list::ClassList;
use crate::types::{ParseError, ParseErrorKind, SourceLocation};
use vstd::prelude::*;

verus! {

/// The spacing class used for spacing around a stacked or relabeled
/// construct: that of the first symbol of its argument, with a transparent
/// group looked through, and ordinary for everything else.
pub open spec fn binrel_class_spec(arg: AnyParseNode) -> DomType {
    let atom = match arg {
        AnyParseNode::OrdGroup { body, .. } => if body@.len() > 0 {
            body@[0]
        } else {
            arg
        },
        _ => arg,
    };
    match atom {
        AnyParseNode::Atom { family, .. } => match family {
            Atom::Bin => DomType::Mbin,
            Atom::Rel => DomType::Mrel,
            _ => DomType::Mord,
        },
        _ => DomType::Mord,
    }
}

/// Determines the spacing class for stacked-construct spacing from the
/// argument node: binary, relation, or ordinary.
pub fn binrel_class(arg: &AnyParseNode) -> (r: DomType)
    ensures
        r == binrel_class_spec(*arg),
{
    let atom: &AnyParseNode = match arg {
        AnyParseNode::OrdGroup { body, .. } => {
            if body.len() > 0 {
                &body[0]
            } else {
                arg
            }
        },
        _ => arg,
    };
    match atom {
        AnyParseNode::Atom { family, .. } => match family {
            Atom::Bin => DomType::Mbin,
            Atom::Rel => DomType::Mrel,
            _ => DomType::Mord,
        },
        _ => DomType::Mord,
    }
}

/// The spacing class a math-class command name selects.
pub open spec fn mclass_for_name(name: Seq<char>) -> DomType {
    if name == "\\mathbin"@ {
        DomType::Mbin
    } else if name == "\\mathrel"@ {
        DomType::Mrel
    } else if name == "\\mathopen"@ {
        DomType::Mopen
    } else if name == "\\mathclose"@ {
        DomType::Mclose
    } else if name == "\\mathpunct"@ {
        DomType::Mpunct
    } else if name == "\\mathinner"@ {
        DomType::Minner
    } else {
        DomType::Mord
    }
}

fn mclass_from_name(func_name: &str) -> (r: DomType)
    ensures
        r == mclass_for_name(func_name@),
{
    if str_eq(func_name, "\\mathbin") {
        DomType::Mbin
    } else if str_eq(func_name, "\\mathrel") {
        DomType::Mrel
    } else if str_eq(func_name, "\\mathopen") {
        DomType::Mopen
    } else if str_eq(func_name, "\\mathclose") {
        DomType::Mclose
    } else if str_eq(func_name, "\\mathpunct") {
        DomType::Mpunct
    } else if str_eq(func_name, "\\mathinner") {
        DomType::Minner
    } else {
        DomType::Mord
    }
}

/// Builds the node for a math-class command: the argument's nodes wrapped
/// under the spacing class the command names.
pub fn mclass_handler(
    func_name: &str,
    mode: Mode,
    loc: Option<SourceLocation>,
    arg: AnyParseNode,
) -> (r: AnyParseNode)
    ensures
        (r matches AnyParseNode::Mclass { mode: m, loc: l, mclass, body, is_character_box } ==> {
            &&& m == mode
            &&& l == loc
            &&& mclass == mclass_for_name(func_name@)
            &&& body@ == ord_argument_spec(arg)
            &&& is_character_box == arg.is_character_box_spec()
        }),
        r is Mclass,
{
    let is_char_box = arg.is_character_box();
    let mclass = mclass_from_name(func_name);
    AnyParseNode::Mclass { mode, loc, mclass, body: ord_argument(arg), is_character_box: is_char_box }
}

/// Builds the node for the binary-relation relabeling command: the second
/// argument's nodes wrapped under the spacing class of the first argument.
pub fn binrel_handler(
    mode: Mode,
    loc: Option<SourceLocation>,
    first: &AnyParseNode,
    second: AnyParseNode,
) -> (r: AnyParseNode)
    ensures
        (r matches AnyParseNode::Mclass { mode: m, loc: l, mclass, body, is_character_box } ==> {
            &&& m == mode
            &&& l == loc
            &&& mclass == binrel_class_spec(*first)
            &&& body@ == ord_argument_spec(second)
            &&& is_character_box == second.is_character_box_spec()
        }),
        r is Mclass,
{
    let is_char_box = second.is_character_box();
    let mclass = binrel_class(first);
    AnyParseNode::Mclass { mode, loc, mclass, body: ord_argument(second), is_character_box: is_char_box }
}

/// Builds the node for a stacking command: an operator made of the base
/// argument, with the shifted argument attached above it — or below it for
/// the underside form — the whole wrapped under the spacing class the
/// command calls for.
pub fn stacked_handler(
    func_name: &str,
    mode: Mode,
    loc: Option<SourceLocation>,
    shifted_arg: AnyParseNode,
    base_arg: AnyParseNode,
) -> (r: AnyParseNode)
    ensures
        (r matches AnyParseNode::Mclass { mode: m, loc: l, mclass, body, is_character_box } ==> {
            &&& m == mode
            &&& l == loc
            &&& mclass == (if func_name@ == "\\stackrel"@ {
                DomType::Mrel
            } else {
                binrel_class_spec(base_arg)
            })
            &&& is_character_box == false
            &&& body@.len() == 1
            &&& (body@[0] matches AnyParseNode::SupSub { mode: sm, loc: sl, base, sup, sub } ==> {
                &&& sm == shifted_arg.mode_spec()
                &&& sl == loc
                &&& (base matches Some(b) ==> {
                    &&& (*b matches AnyParseNode::Op {
                        mode: om,
                        loc: ol,
                        limits,
                        always_handle_sup_sub,
                        suppress_base_shift,
                        parent_is_sup_sub,
                        body: obody,
                    } ==> {
                        &&& om == base_arg.mode_spec()
                        &&& ol == loc
                        &&& limits == true
                        &&& always_handle_sup_sub == Some(true)
                        &&& suppress_base_shift == Some(func_name@ != "\\stackrel"@)
                        &&& parent_is_sup_sub == false
                        &&& obody@ == ord_argument_spec(base_arg)
                    })
                    &&& (*b) is Op
                })
                &&& base is Some
                &&& (func_name@ == "\\underset"@ ==> sup is None && (sub matches Some(s)
                    && *s == shifted_arg))
                &&& (func_name@ != "\\underset"@ ==> sub is None && (sup matches Some(s)
                    && *s == shifted_arg))
            })
            &&& body@[0] is SupSub
        }),
        r is Mclass,
{
    let is_stackrel = str_eq(func_name, "\\stackrel");
    let is_underset = str_eq(func_name, "\\underset");
    let mclass = if is_stackrel {
        DomType::Mrel
    } else {
        binrel_class(&base_arg)
    };
    let base_mode = base_arg.mode();
    let shifted_mode = shifted_arg.mode();
    let base_op = AnyParseNode::Op {
        mode: base_mode,
        loc,
        limits: true,
        always_handle_sup_sub: Some(true),
        suppress_base_shift: Some(!is_stackrel),
        parent_is_sup_sub: false,
        body: ord_argument(base_arg),
    };
    let sup: Option<Box<AnyParseNode>>;
    let sub: Option<Box<AnyParseNode>>;
    if is_underset {
        sup = None;
        sub = Some(Box::new(shifted_arg));
    } else {
        sup = Some(Box::new(shifted_arg));
        sub = None;
    }
    let supsub = AnyParseNode::SupSub { mode: shifted_mode, loc, base: Some(Box::new(base_op)), sup, sub };
    let is_char_box = supsub.is_character_box();
    let mut body: Vec<AnyParseNode> = Vec::new();
    body.push(supsub);
    AnyParseNode::Mclass { mode, loc, mclass, body, is_character_box: is_char_box }
}

/// The CSS class a spacing class renders under.
pub open spec fn dom_type_class_view(d: DomType) -> Seq<char> {
    match d {
        DomType::Mord => "mord"@,
        DomType::Mop => "mop"@,
        DomType::Mbin => "mbin"@,
        DomType::Mrel => "mrel"@,
        DomType::Mopen => "mopen"@,
        DomType::Mclose => "mclose"@,
        DomType::Mpunct => "mpunct"@,
        DomType::Minner => "minner"@,
    }
}

fn dom_type_class(d: DomType) -> (r: &'static str)
    ensures
        r@ == dom_type_class_view(d),
{
    match d {
        DomType::Mord => "mord",
        DomType::Mop => "mop",
        DomType::Mbin => "mbin",
        DomType::Mrel => "mrel",
        DomType::Mopen => "mopen",
        DomType::Mclose => "mclose",
        DomType::Mpunct => "mpunct",
        DomType::Minner => "minner",
    }
}

/// Builds the visual node for a spacing-class wrapper: its already-built
/// children inside a container classed after the spacing class. Any other
/// node is rejected.
pub fn html_builder(node: &AnyParseNode, children: Vec<HtmlDomNode>) -> (r: Result<
    HtmlDomNode,
    ParseError,
>)
    ensures
        (node matches AnyParseNode::Mclass { mclass, .. } ==> {
            &&& r is Ok
            &&& (r matches Ok(span) ==> span matches HtmlDomNode::Span {
                classes: ClassList::Static(c),
                children: built,
            } && c@ == dom_type_class_view(*mclass) && built == children)
        }),
        !(*node is Mclass) ==> (r matches Err(e) && e.kind matches ParseErrorKind::ExpectedNode {
            node: n,
        } && n == NodeType::Mclass),
{
    match node {
        AnyParseNode::Mclass { mclass, .. } => Ok(make_span(dom_type_class(*mclass), children)),
        _ => Err(ParseError::new(ParseErrorKind::ExpectedNode { node: NodeType::Mclass })),
    }
}

/// The explicit MathML spacing attributes attached for classes whose
/// spacing deviates from the element's default.
pub open spec fn mclass_attrs(d: DomType) -> Seq<(Seq<char>, Seq<char>)> {
    match d {
        DomType::Mbin => seq![("lspace"@, "0.22em"@), ("rspace"@, "0.22em"@)],
        DomType::Mopen => seq![("lspace"@, "0em"@), ("rspace"@, "0em"@)],
        DomType::Mclose => seq![("lspace"@, "0em"@), ("rspace"@, "0em"@)],
        DomType::Mpunct => seq![("lspace"@, "0em"@), ("rspace"@, "0.17em"@)],
        DomType::Minner => seq![("lspace"@, "0.0556em"@), ("width"@, "+0.1111em"@)],
        _ => Seq::empty(),
    }
}

fn push_attr(attrs: &mut Vec<(String, String)>, name: &str, value: &str)
    ensures
        attr_views(final(attrs)@) == attr_views(old(attrs)@).push((name@, value@)),
{
    attrs.push((String::from_str(name), String::from_str(value)));
    proof {
        assert(attr_views(attrs@) =~= attr_views(old(attrs)@).push((name@, value@)));
    }
}

fn attrs_for_class(d: DomType) -> (r: Vec<(String, String)>)
    ensures
        attr_views(r@) == mclass_attrs(d),
{
    let mut attrs: Vec<(String, String)> = Vec::new();
    proof {
        assert(attr_views(attrs@) =~= Seq::<(Seq<char>, Seq<char>)>::empty());
    }
    match d {
        DomType::Mbin => {
            push_attr(&mut attrs, "lspace", "0.22em");
            push_attr(&mut attrs, "rspace", "0.22em");
        },
        DomType::Mopen | DomType::Mclose => {
            push_attr(&mut attrs, "lspace", "0em");
            push_attr(&mut attrs, "rspace", "0em");
        },
        DomType::Mpunct => {
            push_attr(&mut attrs, "lspace", "0em");
            push_attr(&mut attrs, "rspace", "0.17em");
        },
        DomType::Minner => {
            push_attr(&mut attrs, "lspace", "0.0556em");
            push_attr(&mut attrs, "width", "+0.1111em");
        },
        _ => {},
    }
    proof {
        assert(attr_views(attrs@) =~= mclass_attrs(d));
    }
    attrs
}

/// Builds the accessibility node for a spacing-class wrapper over its
/// already-built children: a padded container for inner class, an
/// identifier for ordinary class, and an operator otherwise, with explicit
/// spacing attributes where the class deviates from the element's default
/// spacing. A single character box is passed through rather than wrapped.
/// Any other node is rejected.
pub fn mathml_builder(node: &AnyParseNode, inner: Vec<MathDomNode>) -> (r: Result<
    MathDomNode,
    ParseError,
>)
    ensures
        !(*node is Mclass) ==> (r matches Err(e) && e.kind matches ParseErrorKind::ExpectedNode {
            node: n,
        } && n == NodeType::Mclass),
        (node matches AnyParseNode::Mclass { mclass, is_character_box, .. } ==> {
            &&& r is Ok
            &&& (*mclass == DomType::Minner ==> (r matches Ok(MathDomNode::Math(m))
                && m.node_type == MathNodeType::Mpadded && m.children == inner
                && m.attributes@.len() == 0))
            &&& (*mclass == DomType::Mord ==> {
                &&& (*is_character_box && inner@.len() > 0 ==> r == Ok::<MathDomNode, ParseError>(inner@[0]))
                &&& (!(*is_character_box && inner@.len() > 0) ==> (r matches Ok(
                    MathDomNode::Math(m),
                ) && m.node_type == MathNodeType::Mi && m.children == inner
                    && m.attributes@.len() == 0))
            })
            &&& (*mclass != DomType::Minner && *mclass != DomType::Mord ==> {
                &&& (!(*is_character_box && inner@.len() > 0) ==> (r matches Ok(
                    MathDomNode::Math(m),
                ) && m.node_type == MathNodeType::Mo && m.children == inner && attr_views(
                    m.attributes@,
                ) == mclass_attrs(*mclass)))
                &&& (*is_character_box && inner@.len() > 0 ==> {
                    &&& (inner@[0] matches MathDomNode::Text(_) ==> r == Ok::<MathDomNode, ParseError>(inner@[0]))
                    &&& (inner@[0] matches MathDomNode::Math(m0) ==> (r matches Ok(
                        MathDomNode::Math(m),
                    ) && m.node_type == m0.node_type && m.children == m0.children && attr_views(
                        m.attributes@,
                    ) == (if mclass_attrs(*mclass).len() == 0 {
                        attr_views(m0.attributes@)
                    } else {
                        mclass_attrs(*mclass)
                    })))
                })
            })
        }),
{
    let (mclass, is_character_box): (DomType, bool) = match node {
        AnyParseNode::Mclass { mclass, is_character_box, .. } => (*mclass, *is_character_box),
        _ => {
            return Err(ParseError::new(ParseErrorKind::ExpectedNode { node: NodeType::Mclass }));
        },
    };

    if mclass == DomType::Minner {
        return Ok(MathDomNode::Math(MathNode::new(MathNodeType::Mpadded, inner)));
    }
    if mclass == DomType::Mord {
        if is_character_box && inner.len() > 0 {
            // Use the first inner element directly.
            let mut inner = inner;
            let first = inner.remove(0);
            return Ok(first);
        }
        return Ok(MathDomNode::Math(MathNode::new(MathNodeType::Mi, inner)));
    }

    let mut result: MathDomNode = if is_character_box && inner.len() > 0 {
        // Use the first inner element directly.
        let mut inner = inner;
        inner.remove(0)
    } else {
        MathDomNode::Math(MathNode::new(MathNodeType::Mo, inner))
    };

    // Set spacing based on the most likely adjacent atom type; the relation
    // class keeps the element's default spacing.
    match &mut result {
        MathDomNode::Math(math_node) => {
            let attributes = attrs_for_class(mclass);
            if attributes.len() > 0 {
                math_node.attributes = attributes;
            }
        },
        MathDomNode::Text(_) => {},
    }
    Ok(result)
}

/// One registry entry has the given name, arity and handler, and builds a
/// spacing-class node.
pub open spec fn entry_is(
    e: (&'static str, FunctionDefSpec),
    name: Seq<char>,
    num_args: int,
    handler: HandlerKind,
) -> bool {
    &&& e.0@ == name
    &&& e.1.num_args == num_args
    &&& e.1.handler == handler
    &&& e.1.node_type == Some(NodeType::Mclass)
}

/// Registers the math-class commands: the seven class wrappers, the
/// binary-relation relabeling command, and the three stacking commands.
pub fn define_mclass(ctx: &mut KatexContext)
    ensures
        final(ctx).functions@.len() == old(ctx).functions@.len() + 11,
        forall|j: int|
            0 <= j < old(ctx).functions@.len() ==> final(ctx).functions@[j] == old(
                ctx,
            ).functions@[j],
        ({
            let base = old(ctx).functions@.len() as int;
            let fs = final(ctx).functions@;
            &&& entry_is(fs[base + 0], "\\mathord"@, 1, HandlerKind::MathClass)
            &&& entry_is(fs[base + 1], "\\mathbin"@, 1, HandlerKind::MathClass)
            &&& entry_is(fs[base + 2], "\\mathrel"@, 1, HandlerKind::MathClass)
            &&& entry_is(fs[base + 3], "\\mathopen"@, 1, HandlerKind::MathClass)
            &&& entry_is(fs[base + 4], "\\mathclose"@, 1, HandlerKind::MathClass)
            &&& entry_is(fs[base + 5], "\\mathpunct"@, 1, HandlerKind::MathClass)
            &&& entry_is(fs[base + 6], "\\mathinner"@, 1, HandlerKind::MathClass)
            &&& entry_is(fs[base + 7], "\\@binrel"@, 2, HandlerKind::Binrel)
            &&& entry_is(fs[base + 8], "\\stackrel"@, 2, HandlerKind::Stacked)
            &&& entry_is(fs[base + 9], "\\overset"@, 2, HandlerKind::Stacked)
            &&& entry_is(fs[base + 10], "\\underset"@, 2, HandlerKind::Stacked)
        }),
{
    // Math class commands except the operator wrapper.
    let mut math_class_name_list: Vec<&'static str> = Vec::new();
    math_class_name_list.push("\\mathord");
    math_class_name_list.push("\\mathbin");
    math_class_name_list.push("\\mathrel");
    math_class_name_list.push("\\mathopen");
    math_class_name_list.push("\\mathclose");
    math_class_name_list.push("\\mathpunct");
    math_class_name_list.push("\\mathinner");
    ctx.define_function(
        math_class_name_list.as_slice(),
        FunctionDefSpec {
            node_type: Some(NodeType::Mclass),
            num_args: 1,
            handler: HandlerKind::MathClass,
        },
    );
    proof {
        let base = old(ctx).functions@.len() as int;
        let def = FunctionDefSpec {
            node_type: Some(NodeType::Mclass),
            num_args: 1,
            handler: HandlerKind::MathClass,
        };
        assert(ctx.functions@[base + 0] == (math_class_name_list@[0], def));
        assert(ctx.functions@[base + 1] == (math_class_name_list@[1], def));
        assert(ctx.functions@[base + 2] == (math_class_name_list@[2], def));
        assert(ctx.functions@[base + 3] == (math_class_name_list@[3], def));
        assert(ctx.functions@[base + 4] == (math_class_name_list@[4], def));
        assert(ctx.functions@[base + 5] == (math_class_name_list@[5], def));
        assert(ctx.functions@[base + 6] == (math_class_name_list@[6], def));
    }
    let ghost len1 = ctx.functions@.len();

    // Render the second argument like itself but spaced as the class of the
    // first argument.
    let mut binrel_names: Vec<&'static str> = Vec::new();
    binrel_names.push("\\@binrel");
    ctx.define_function(
        binrel_names.as_slice(),
        FunctionDefSpec {
            node_type: Some(NodeType::Mclass),
            num_args: 2,
            handler: HandlerKind::Binrel,
        },
    );
    proof {
        assert(ctx.functions@[len1 as int + 0] == (binrel_names@[0], FunctionDefSpec {
            node_type: Some(NodeType::Mclass),
            num_args: 2,
            handler: HandlerKind::Binrel,
        }));
    }
    let ghost len2 = ctx.functions@.len();

    // Build a relation or stacked operator by placing one symbol on top of
    // another.
    let mut stacked_names: Vec<&'static str> = Vec::new();
    stacked_names.push("\\stackrel");
    stacked_names.push("\\overset");
    stacked_names.push("\\underset");
    ctx.define_function(
        stacked_names.as_slice(),
        FunctionDefSpec {
            node_type: Some(NodeType::Mclass),
            num_args: 2,
            handler: HandlerKind::Stacked,
        },
    );
    proof {
        let def = FunctionDefSpec {
            node_type: Some(NodeType::Mclass),
            num_args: 2,
            handler: HandlerKind::Stacked,
        };
        assert(ctx.functions@[len2 as int + 0] == (stacked_names@[0], def));
        assert(ctx.functions@[len2 as int + 1] == (stacked_names@[1], def));
        assert(ctx.functions@[len2 as int + 2] == (stacked_names@[2], def));
    }
}

} // verus!
