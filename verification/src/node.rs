//! The pending-node model: the grammar engine's output as this crate sees it.
//!
//! A [`Node`] is one rule-tagged match: its [`Rule`] tag, the textual span
//! it matched, and its children in document order.  Builders walk a
//! `Vec<Node>` through an explicit cursor position, peeking the next tag
//! before consuming, so a mismatch leaves the cursor untouched.

use vstd::prelude::*;

verus! {

/// The grammar rule that a pending node matched.  Dispatch between
/// builders goes by this tag alone, never by sniffing the node's text.
#[derive(Debug, Clone, Copy, PartialEq, Eq, Structural)]
pub enum Rule {
    Main,
    Stmt,
    Expr,
    ExprInner,
    Term,
    Value,
    PrimitiveValue,
    StringLit,
    CharLit,
    Array,
    Tuple,
    Params,
    Operator,
    OpAdd,
    OpSub,
    OpMul,
    OpDiv,
    OpPow,
    Integer,
    IntegerDec,
    IntegerBin,
    IntegerOct,
    IntegerHex,
    Float,
    EndOfInput,
}

/// One pending node of the concrete syntax tree: its rule tag, the text
/// of the span it matched, and its ordered children.
#[derive(Debug)]
pub struct Node {
    pub rule: Rule,
    pub text: String,
    pub children: Vec<Node>,
}

/// Height of a node: one more than the height of its forest of children.
pub open spec fn node_height(n: Node) -> nat
    decreases n,
{
    1 + forest_height(n.children@)
}

/// Height of a forest: the greatest height of any of its nodes, zero when
/// it is empty.
pub open spec fn forest_height(ns: Seq<Node>) -> nat
    decreases ns,
{
    if ns.len() == 0 {
        0
    } else {
        let h0 = node_height(ns[0]);
        let hr = forest_height(ns.drop_first());
        if h0 > hr {
            h0
        } else {
            hr
        }
    }
}

/// Every node of a forest is at most as high as the forest itself.
pub proof fn lemma_forest_height_elem(ns: Seq<Node>, i: int)
    requires
        0 <= i < ns.len(),
    ensures
        node_height(ns[i]) <= forest_height(ns),
    decreases ns.len(),
{
    if i == 0 {
    } else {
        lemma_forest_height_elem(ns.drop_first(), i - 1);
        assert(ns.drop_first()[i - 1] == ns[i]);
    }
}

/// The children of any node of a forest form a strictly lower forest.
pub proof fn lemma_child_forest_lower(ns: Seq<Node>, i: int)
    requires
        0 <= i < ns.len(),
    ensures
        forest_height(ns[i].children@) < forest_height(ns),
{
    lemma_forest_height_elem(ns, i);
}

} // verus!
