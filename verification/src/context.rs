//! The function registry: control-sequence names mapped to the
//! specification of the function they invoke. The registry is filled once
//! at setup; a later registration of a name overrides an earlier one.

use crate::parse_node::NodeType;
use crate::strutil::str_eq;
use vstd::prelude::*;

verus! {

/// Which parse-time handler a registered function runs.
#[derive(Clone, Copy, Debug, PartialEq, Eq, Structural)]
pub enum HandlerKind {
    /// Wrap one argument under the spacing class named by the command.
    MathClass,
    /// Render the second argument under the spacing class of the first.
    Binrel,
    /// Stack the first argument over or under the second.
    Stacked,
}

/// What a registered function expects and does.
#[derive(Clone, Copy, Debug, PartialEq, Eq, Structural)]
pub struct FunctionDefSpec {
    /// The kind of node the handler builds.
    pub node_type: Option<NodeType>,
    /// How many arguments the parser collects for it.
    pub num_args: usize,
    /// The parse-time handler to run.
    pub handler: HandlerKind,
}

/// The definition registered for a name: the latest registration wins.
pub open spec fn fn_lookup(
    s: Seq<(&'static str, FunctionDefSpec)>,
    name: Seq<char>,
) -> Option<FunctionDefSpec>
    decreases s.len(),
{
    if s.len() == 0 {
        None
    } else if s.last().0@ == name {
        Some(s.last().1)
    } else {
        fn_lookup(s.drop_last(), name)
    }
}

/// The rendering context that carries the function registry.
#[derive(Debug)]
pub struct KatexContext {
    /// The registered functions, in registration order.
    pub functions: Vec<(&'static str, FunctionDefSpec)>,
}

impl KatexContext {
    /// An empty registry.
    pub fn new() -> (r: KatexContext)
        ensures
            r.functions@.len() == 0,
    {
        KatexContext { functions: Vec::new() }
    }

    /// Registers one function specification under each of the given names.
    pub fn define_function(&mut self, names: &[&'static str], def: FunctionDefSpec)
        ensures
            final(self).functions@.len() == old(self).functions@.len() + names@.len(),
            forall|j: int|
                0 <= j < old(self).functions@.len() ==> (#[trigger] final(self).functions@[j])
                    == old(self).functions@[j],
            forall|i: int|
                0 <= i < names@.len() ==> (#[trigger] final(self).functions@[old(
                    self,
                ).functions@.len() + i]) == (names@[i], def),
    {
        let n = names.len();
        let mut i: usize = 0;
        while i < n
            invariant
                i <= n,
                n == names@.len(),
                self.functions@.len() == old(self).functions@.len() + i,
                forall|j: int|
                    0 <= j < old(self).functions@.len() ==> (#[trigger] self.functions@[j]) == old(
                        self,
                    ).functions@[j],
                forall|k: int|
                    0 <= k < i ==> (#[trigger] self.functions@[old(self).functions@.len() + k])
                        == (names@[k], def),
            decreases n - i,
        {
            self.functions.push((names[i], def));
            i = i + 1;
        }
    }

    /// Looks up the definition registered for a name, preferring the latest
    /// registration.
    pub fn find_function(&self, name: &str) -> (r: Option<FunctionDefSpec>)
        ensures
            r == fn_lookup(self.functions@, name@),
    {
        let n = self.functions.len();
        let mut i: usize = n;
        proof {
            assert(self.functions@.take(n as int) =~= self.functions@);
        }
        while i > 0
            invariant
                i <= n,
                n == self.functions@.len(),
                fn_lookup(self.functions@, name@) == fn_lookup(
                    self.functions@.take(i as int),
                    name@,
                ),
            decreases i,
        {
            let entry = self.functions[i - 1];
            proof {
                let t = self.functions@.take(i as int);
                assert(t.last() == self.functions@[i - 1]);
                assert(t.drop_last() =~= self.functions@.take(i as int - 1));
            }
            if str_eq(entry.0, name) {
                return Some(entry.1);
            }
            i = i - 1;
        }
        None
    }
}

} // verus!
