use katex::context::{FunctionDefSpec, HandlerKind, KatexContext};
use katex::mclass::{
    binrel_class, binrel_handler, define_mclass, html_builder, mathml_builder, mclass_handler,
    stacked_handler,
};
use katex::options::{Options, Style, StyleKind, BASE_SIZE};
use katex::parse_node::{ord_argument, AnyParseNode, Atom, DomType, Mode, NodeType};
use katex::tree::{HtmlDomNode, MathDomNode, MathNode, MathNodeType};
use katex::types::class_list::ClassList;
use katex::types::ParseErrorKind;

fn atom(family: Atom, text: &str) -> AnyParseNode {
    AnyParseNode::Atom { family, mode: Mode::Math, loc: None, text: text.to_string() }
}

fn group(body: Vec<AnyParseNode>) -> AnyParseNode {
    AnyParseNode::OrdGroup { mode: Mode::Math, loc: None, body }
}

#[test]
fn binrel_class_reads_the_first_atom() {
    assert_eq!(binrel_class(&atom(Atom::Bin, "+")), DomType::Mbin);
    assert_eq!(binrel_class(&atom(Atom::Rel, "=")), DomType::Mrel);
    assert_eq!(binrel_class(&atom(Atom::Ord, "x")), DomType::Mord);
    // A transparent group answers with its first element's class.
    assert_eq!(binrel_class(&group(vec![atom(Atom::Rel, "="), atom(Atom::Ord, "x")])), DomType::Mrel);
    assert_eq!(binrel_class(&group(vec![])), DomType::Mord);
}

#[test]
fn ord_argument_unwraps_groups() {
    let args = ord_argument(group(vec![atom(Atom::Ord, "a"), atom(Atom::Ord, "b")]));
    assert_eq!(args.len(), 2);
    let args = ord_argument(atom(Atom::Ord, "a"));
    assert_eq!(args.len(), 1);
}

#[test]
fn mclass_handler_wraps_the_argument() {
    let node = mclass_handler("\\mathrel", Mode::Math, None, atom(Atom::Ord, "x"));
    match node {
        AnyParseNode::Mclass { mclass, body, is_character_box, mode, .. } => {
            assert_eq!(mclass, DomType::Mrel);
            assert_eq!(body.len(), 1);
            assert!(is_character_box);
            assert_eq!(mode, Mode::Math);
        },
        other => panic!("expected a spacing-class node, got {other:?}"),
    }
    let node = mclass_handler("\\mathord", Mode::Math, None, group(vec![
        atom(Atom::Ord, "a"),
        atom(Atom::Ord, "b"),
    ]));
    match node {
        AnyParseNode::Mclass { mclass, body, is_character_box, .. } => {
            assert_eq!(mclass, DomType::Mord);
            assert_eq!(body.len(), 2);
            assert!(!is_character_box);
        },
        other => panic!("expected a spacing-class node, got {other:?}"),
    }
}

#[test]
fn binrel_handler_takes_the_class_of_its_first_argument() {
    let node = binrel_handler(Mode::Math, None, &atom(Atom::Bin, "+"), atom(Atom::Ord, "y"));
    match node {
        AnyParseNode::Mclass { mclass, body, .. } => {
            assert_eq!(mclass, DomType::Mbin);
            assert_eq!(body.len(), 1);
        },
        other => panic!("expected a spacing-class node, got {other:?}"),
    }
}

#[test]
fn stacked_handler_builds_a_script_over_an_operator() {
    let node = stacked_handler("\\overset", Mode::Math, None, atom(Atom::Ord, "a"), atom(
        Atom::Rel,
        "=",
    ));
    match node {
        AnyParseNode::Mclass { mclass, body, is_character_box, .. } => {
            assert_eq!(mclass, DomType::Mrel);
            assert!(!is_character_box);
            assert_eq!(body.len(), 1);
            match &body[0] {
                AnyParseNode::SupSub { base, sup, sub, .. } => {
                    assert!(sup.is_some());
                    assert!(sub.is_none());
                    match base.as_deref() {
                        Some(AnyParseNode::Op {
                            limits,
                            always_handle_sup_sub,
                            suppress_base_shift,
                            ..
                        }) => {
                            assert!(*limits);
                            assert_eq!(*always_handle_sup_sub, Some(true));
                            assert_eq!(*suppress_base_shift, Some(true));
                        },
                        other => panic!("expected an operator base, got {other:?}"),
                    }
                },
                other => panic!("expected a script node, got {other:?}"),
            }
        },
        other => panic!("expected a spacing-class node, got {other:?}"),
    }
}

#[test]
fn stacked_handler_underset_attaches_below() {
    let node = stacked_handler("\\underset", Mode::Math, None, atom(Atom::Ord, "a"), atom(
        Atom::Ord,
        "x",
    ));
    match node {
        AnyParseNode::Mclass { mclass, body, .. } => {
            assert_eq!(mclass, DomType::Mord);
            match &body[0] {
                AnyParseNode::SupSub { sup, sub, .. } => {
                    assert!(sup.is_none());
                    assert!(sub.is_some());
                },
                other => panic!("expected a script node, got {other:?}"),
            }
        },
        other => panic!("expected a spacing-class node, got {other:?}"),
    }
}

#[test]
fn stacked_handler_stackrel_is_a_relation() {
    let node = stacked_handler("\\stackrel", Mode::Math, None, atom(Atom::Ord, "a"), atom(
        Atom::Ord,
        "x",
    ));
    match node {
        AnyParseNode::Mclass { mclass, body, .. } => {
            assert_eq!(mclass, DomType::Mrel);
            match &body[0] {
                AnyParseNode::SupSub { base, .. } => match base.as_deref() {
                    Some(AnyParseNode::Op { suppress_base_shift, .. }) => {
                        assert_eq!(*suppress_base_shift, Some(false));
                    },
                    other => panic!("expected an operator base, got {other:?}"),
                },
                other => panic!("expected a script node, got {other:?}"),
            }
        },
        other => panic!("expected a spacing-class node, got {other:?}"),
    }
}

#[test]
fn define_mclass_registers_the_commands() {
    let mut ctx = KatexContext::new();
    define_mclass(&mut ctx);
    assert_eq!(ctx.functions.len(), 11);

    let rel = ctx.find_function("\\mathrel").expect("registered");
    assert_eq!(rel.num_args, 1);
    assert_eq!(rel.handler, HandlerKind::MathClass);
    assert_eq!(rel.node_type, Some(NodeType::Mclass));

    let overset = ctx.find_function("\\overset").expect("registered");
    assert_eq!(overset.num_args, 2);
    assert_eq!(overset.handler, HandlerKind::Stacked);

    let binrel = ctx.find_function("\\@binrel").expect("registered");
    assert_eq!(binrel.num_args, 2);
    assert_eq!(binrel.handler, HandlerKind::Binrel);

    assert!(ctx.find_function("\\mathop").is_none());
}

#[test]
fn later_registrations_override_earlier_ones() {
    let mut ctx = KatexContext::new();
    let first = FunctionDefSpec {
        node_type: Some(NodeType::Mclass),
        num_args: 1,
        handler: HandlerKind::MathClass,
    };
    let second = FunctionDefSpec {
        node_type: Some(NodeType::Mclass),
        num_args: 2,
        handler: HandlerKind::Stacked,
    };
    ctx.define_function(&["\\thing"], first);
    ctx.define_function(&["\\thing"], second);
    let found = ctx.find_function("\\thing").expect("registered");
    assert_eq!(found.num_args, 2);
    assert_eq!(found.handler, HandlerKind::Stacked);
}

#[test]
fn html_builder_wraps_children_in_a_classed_span() {
    let node = mclass_handler("\\mathbin", Mode::Math, None, atom(Atom::Ord, "x"));
    let built = html_builder(&node, Vec::new()).expect("a spacing-class node builds");
    match built {
        HtmlDomNode::Span { classes, children } => {
            assert!(matches!(classes, ClassList::Static("mbin")));
            assert!(children.is_empty());
        },
        other => panic!("expected a container, got {other:?}"),
    }
    let err = html_builder(&atom(Atom::Ord, "x"), Vec::new()).expect_err("wrong node kind");
    assert!(matches!(err.kind, ParseErrorKind::ExpectedNode { node: NodeType::Mclass }));
}

fn mclass_node(mclass: DomType, is_character_box: bool) -> AnyParseNode {
    AnyParseNode::Mclass { mode: Mode::Math, loc: None, mclass, body: vec![], is_character_box }
}

fn attr_pairs(node: &MathNode) -> Vec<(String, String)> {
    node.attributes.clone()
}

#[test]
fn mathml_builder_uses_mpadded_for_inner() {
    let built = mathml_builder(&mclass_node(DomType::Minner, false), Vec::new()).unwrap();
    match built {
        MathDomNode::Math(m) => {
            assert_eq!(m.node_type, MathNodeType::Mpadded);
            assert!(m.attributes.is_empty());
        },
        other => panic!("expected an element, got {other:?}"),
    }
}

#[test]
fn mathml_builder_uses_mi_for_ordinary_class() {
    let built = mathml_builder(&mclass_node(DomType::Mord, false), Vec::new()).unwrap();
    match built {
        MathDomNode::Math(m) => {
            assert_eq!(m.node_type, MathNodeType::Mi);
            assert!(m.attributes.is_empty());
        },
        other => panic!("expected an element, got {other:?}"),
    }
}

#[test]
fn mathml_builder_passes_a_character_box_through() {
    let inner = vec![MathDomNode::Text("x".to_string())];
    let built = mathml_builder(&mclass_node(DomType::Mord, true), inner).unwrap();
    assert!(matches!(built, MathDomNode::Text(t) if t == "x"));
}

#[test]
fn mathml_builder_spaces_binary_operators() {
    let inner = vec![MathDomNode::Text("+".to_string())];
    let built = mathml_builder(&mclass_node(DomType::Mbin, false), inner).unwrap();
    match built {
        MathDomNode::Math(m) => {
            assert_eq!(m.node_type, MathNodeType::Mo);
            let attrs = attr_pairs(&m);
            assert_eq!(attrs.len(), 2);
            assert_eq!(attrs[0], ("lspace".to_string(), "0.22em".to_string()));
            assert_eq!(attrs[1], ("rspace".to_string(), "0.22em".to_string()));
        },
        other => panic!("expected an element, got {other:?}"),
    }
}

#[test]
fn mathml_builder_replaces_attributes_on_a_spaced_character_box() {
    let child = MathDomNode::Math(MathNode::new(MathNodeType::Mo, Vec::new()));
    let built = mathml_builder(&mclass_node(DomType::Mpunct, true), vec![child]).unwrap();
    match built {
        MathDomNode::Math(m) => {
            assert_eq!(m.node_type, MathNodeType::Mo);
            let attrs = attr_pairs(&m);
            assert_eq!(attrs.len(), 2);
            assert_eq!(attrs[0], ("lspace".to_string(), "0em".to_string()));
            assert_eq!(attrs[1], ("rspace".to_string(), "0.17em".to_string()));
        },
        other => panic!("expected an element, got {other:?}"),
    }
}

#[test]
fn mathml_builder_leaves_relations_with_default_spacing() {
    let built = mathml_builder(&mclass_node(DomType::Mrel, false), Vec::new()).unwrap();
    match built {
        MathDomNode::Math(m) => {
            assert_eq!(m.node_type, MathNodeType::Mo);
            assert!(m.attributes.is_empty());
        },
        other => panic!("expected an element, got {other:?}"),
    }
}

#[test]
fn options_having_the_same_style_is_identity() {
    let opts = Options::new();
    let same = opts.having_style(opts.style);
    assert_eq!(same.style, opts.style);
    assert_eq!(same.size, opts.size);
    assert_eq!(same.color, opts.color);
    assert_eq!(same.font, opts.font);
    assert_eq!(same.phantom, opts.phantom);
}

#[test]
fn options_derivations_share_unrelated_fields() {
    let opts = Options::new().with_color("red".to_string());
    let script = opts.having_style(Style { kind: StyleKind::Script, cramped: true });
    assert_eq!(script.style.kind, StyleKind::Script);
    assert!(script.style.cramped);
    assert_eq!(script.color, Some("red".to_string()));
    assert_eq!(script.size, BASE_SIZE);
    // The parent context is untouched.
    assert_eq!(opts.style.kind, StyleKind::Text);

    let sized = opts.having_size(3);
    assert_eq!(sized.size, 3);
    assert_eq!(sized.style, opts.style);

    let ghost = opts.with_phantom();
    assert!(ghost.phantom);
    assert_eq!(ghost.color, Some("red".to_string()));
}

#[test]
fn style_text_keeps_the_cramped_variant() {
    let script = Style { kind: StyleKind::Script, cramped: true };
    assert!(script.is_tight());
    let text = script.text();
    assert_eq!(text.kind, StyleKind::Text);
    assert!(text.cramped);
    assert!(!text.is_tight());
    let display = Style { kind: StyleKind::Display, cramped: false };
    assert!(!display.is_tight());
}
