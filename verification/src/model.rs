//! The specification of the conversion protocol.
//!
//! For every builder there is an *outcome* function saying, of the node
//! under the cursor, whether the builder reports `NoMatch` (the rule tag
//! is not the expected one, or no alternative of an ordered choice
//! matches), fails fatally (the tag matched but the content could not be
//! converted), or matches.  Beside it stands a *built* relation pinning
//! down exactly which AST value a matching build returns.  Ordered
//! choice tries alternatives in their declared order against the same
//! position; because every alternative peeks a distinct rule tag, the
//! first match is the one whose tag stands there.

use vstd::prelude::*;

use crate::ast::Add;
use crate::ast::Array;
use crate::ast::Char;
use crate::ast::Div;
use crate::ast::Expr;
use crate::ast::ExprInner;
use crate::ast::Float;
use crate::ast::Integer;
use crate::ast::IntegerBin;
use crate::ast::IntegerDec;
use crate::ast::IntegerHex;
use crate::ast::IntegerOct;
use crate::ast::MainProgram;
use crate::ast::Mul;
use crate::ast::Operator;
use crate::ast::PrimitiveValue;
use crate::ast::Pow;
use crate::ast::StringLiteral;
use crate::ast::Sub;
use crate::ast::Term;
use crate::ast::Tuple;
use crate::ast::Value;
use crate::decode::int_text_value;
use crate::decode::int_text_wf;
use crate::decode::is_decimal_float_text;
use crate::decode::trim_matching;
use crate::node::forest_height;
use crate::node::lemma_forest_height_elem;
use crate::node::node_height;
use crate::node::Node;
use crate::node::Rule;

verus! {

/// The three-way outcome of one attempted build.  Which value a match
/// builds, and how the cursor moves, the builders' contracts state
/// separately: `NoMatch` leaves the cursor untouched, a match advances
/// it exactly past the consumed node.
pub enum Outcome {
    NoMatch,
    Fatal,
    Match,
}

/// Whether a decimal integer literal node's text decodes to an `i64`.
pub open spec fn dec_text_ok(s: Seq<char>) -> bool {
    &&& int_text_wf(s, 10)
    &&& i64::MIN <= int_text_value(s, 10) <= i64::MAX
}

/// Whether a radix-prefixed integer literal node's text decodes to an
/// `i64`: two prefix characters stripped blindly, the rest read in the
/// base.
pub open spec fn prefixed_text_ok(s: Seq<char>, radix: u32) -> bool {
    &&& s.len() >= 2
    &&& int_text_wf(s.skip(2), radix)
    &&& i64::MIN <= int_text_value(s.skip(2), radix) <= i64::MAX
}

/// The value a radix-prefixed integer literal node decodes to.
pub open spec fn prefixed_text_value(s: Seq<char>, radix: u32) -> int {
    int_text_value(s.skip(2), radix)
}

/// Outcome of the decimal integer builder.
pub open spec fn integer_dec_outcome(n: Node) -> Outcome {
    if n.rule != Rule::IntegerDec {
        Outcome::NoMatch
    } else if dec_text_ok(n.text@) {
        Outcome::Match
    } else {
        Outcome::Fatal
    }
}

/// Outcome of the binary integer builder.
pub open spec fn integer_bin_outcome(n: Node) -> Outcome {
    if n.rule != Rule::IntegerBin {
        Outcome::NoMatch
    } else if prefixed_text_ok(n.text@, 2) {
        Outcome::Match
    } else {
        Outcome::Fatal
    }
}

/// Outcome of the octal integer builder.
pub open spec fn integer_oct_outcome(n: Node) -> Outcome {
    if n.rule != Rule::IntegerOct {
        Outcome::NoMatch
    } else if prefixed_text_ok(n.text@, 8) {
        Outcome::Match
    } else {
        Outcome::Fatal
    }
}

/// Outcome of the hexadecimal integer builder.
pub open spec fn integer_hex_outcome(n: Node) -> Outcome {
    if n.rule != Rule::IntegerHex {
        Outcome::NoMatch
    } else if prefixed_text_ok(n.text@, 16) {
        Outcome::Match
    } else {
        Outcome::Fatal
    }
}

/// Outcome of the integer ordered choice: its variants are tried in
/// declared order, and each peeks its own radix tag on the first child.
pub open spec fn integer_outcome(n: Node) -> Outcome {
    if n.rule != Rule::Integer {
        Outcome::NoMatch
    } else {
        let k = n.children@;
        if k.len() == 0 {
            Outcome::NoMatch
        } else if k[0].rule == Rule::IntegerDec {
            integer_dec_outcome(k[0])
        } else if k[0].rule == Rule::IntegerBin {
            integer_bin_outcome(k[0])
        } else if k[0].rule == Rule::IntegerOct {
            integer_oct_outcome(k[0])
        } else if k[0].rule == Rule::IntegerHex {
            integer_hex_outcome(k[0])
        } else {
            Outcome::NoMatch
        }
    }
}

/// Which integer a matched integer node builds.
pub open spec fn integer_built(v: Integer, n: Node) -> bool {
    let k = n.children@;
    if k.len() == 0 {
        false
    } else if k[0].rule == Rule::IntegerDec {
        v == Integer::Dec(IntegerDec { val: int_text_value(k[0].text@, 10) as i64 })
    } else if k[0].rule == Rule::IntegerBin {
        v == Integer::Bin(IntegerBin { val: prefixed_text_value(k[0].text@, 2) as i64 })
    } else if k[0].rule == Rule::IntegerOct {
        v == Integer::Oct(IntegerOct { val: prefixed_text_value(k[0].text@, 8) as i64 })
    } else if k[0].rule == Rule::IntegerHex {
        v == Integer::Hex(IntegerHex { val: prefixed_text_value(k[0].text@, 16) as i64 })
    } else {
        false
    }
}

/// Outcome of the character literal builder.
pub open spec fn char_outcome(n: Node) -> Outcome {
    if n.rule != Rule::CharLit {
        Outcome::NoMatch
    } else if trim_matching(n.text@, '\'').len() > 0 {
        Outcome::Match
    } else {
        Outcome::Fatal
    }
}

/// Which character a matched character node builds.
pub open spec fn char_built(c: Char, n: Node) -> bool {
    c.val == trim_matching(n.text@, '\'')[0]
}

/// Outcome of the string literal builder: trimming cannot fail.
pub open spec fn string_outcome(n: Node) -> Outcome {
    if n.rule != Rule::StringLit {
        Outcome::NoMatch
    } else {
        Outcome::Match
    }
}

/// Which string a matched string node builds.
pub open spec fn string_built(sl: StringLiteral, n: Node) -> bool {
    sl.val@ == trim_matching(n.text@, '"')
}

/// Outcome of the float literal builder.
pub open spec fn float_outcome(n: Node) -> Outcome {
    if n.rule != Rule::Float {
        Outcome::NoMatch
    } else if is_decimal_float_text(n.text@) {
        Outcome::Match
    } else {
        Outcome::Fatal
    }
}

/// Which float a matched float node builds: its span text, kept intact.
pub open spec fn float_built(f: Float, n: Node) -> bool {
    f.text@ == n.text@
}

/// Outcome of the primitive-value ordered choice, in declared order:
/// character, integer, float.
pub open spec fn primitive_outcome(n: Node) -> Outcome {
    if n.rule != Rule::PrimitiveValue {
        Outcome::NoMatch
    } else {
        let k = n.children@;
        if k.len() == 0 {
            Outcome::NoMatch
        } else if k[0].rule == Rule::CharLit {
            char_outcome(k[0])
        } else if k[0].rule == Rule::Integer {
            integer_outcome(k[0])
        } else if k[0].rule == Rule::Float {
            float_outcome(k[0])
        } else {
            Outcome::NoMatch
        }
    }
}

/// Which primitive a matched primitive-value node builds.
pub open spec fn primitive_built(p: PrimitiveValue, n: Node) -> bool {
    let k = n.children@;
    if k.len() == 0 {
        false
    } else if k[0].rule == Rule::CharLit {
        p matches PrimitiveValue::Char(c) && char_built(c, k[0])
    } else if k[0].rule == Rule::Integer {
        p matches PrimitiveValue::Integer(v) && integer_built(v, k[0])
    } else if k[0].rule == Rule::Float {
        p matches PrimitiveValue::Float(f) && float_built(f, k[0])
    } else {
        false
    }
}

/// Outcome of the operator ordered choice: each variant peeks its own
/// marker tag; no variant can fail fatally.
pub open spec fn operator_outcome(n: Node) -> Outcome {
    if n.rule != Rule::Operator {
        Outcome::NoMatch
    } else {
        let k = n.children@;
        if k.len() > 0 && (k[0].rule == Rule::OpAdd || k[0].rule == Rule::OpSub || k[0].rule
            == Rule::OpMul || k[0].rule == Rule::OpDiv || k[0].rule == Rule::OpPow) {
            Outcome::Match
        } else {
            Outcome::NoMatch
        }
    }
}

/// Which operator a matched operator node builds.
pub open spec fn operator_built(op: Operator, n: Node) -> bool {
    let k = n.children@;
    if k.len() == 0 {
        false
    } else if k[0].rule == Rule::OpAdd {
        op == Operator::Add(Add)
    } else if k[0].rule == Rule::OpSub {
        op == Operator::Sub(Sub)
    } else if k[0].rule == Rule::OpMul {
        op == Operator::Mul(Mul)
    } else if k[0].rule == Rule::OpDiv {
        op == Operator::Div(Div)
    } else if k[0].rule == Rule::OpPow {
        op == Operator::Pow(Pow)
    } else {
        false
    }
}

/// Outcome of the statement builder: a bare marker, nothing to convert.
pub open spec fn stmt_outcome(n: Node) -> Outcome {
    if n.rule == Rule::Stmt {
        Outcome::Match
    } else {
        Outcome::NoMatch
    }
}

/// How many statement-tagged nodes stand consecutively from position
/// `i`.
pub open spec fn leading_stmts(ns: Seq<Node>, i: int) -> int
    decreases ns.len() - i,
{
    if i < 0 || i >= ns.len() {
        0
    } else if ns[i].rule == Rule::Stmt {
        1 + leading_stmts(ns, i + 1)
    } else {
        0
    }
}

/// Outcome of the program builder: statements are gathered until the
/// first non-statement child, which never fails.
pub open spec fn main_outcome(n: Node) -> Outcome {
    if n.rule == Rule::Main {
        Outcome::Match
    } else {
        Outcome::NoMatch
    }
}

/// Which program a matched program node builds: one statement marker
/// per leading statement child.
pub open spec fn main_built(p: MainProgram, n: Node) -> bool {
    p.stmts@.len() == leading_stmts(n.children@, 0)
}

/// Outcome of the expression builder.  After the expression tag is
/// consumed the builder is committed: a failing left term is fatal, an
/// absent operator just leaves the right side empty, and a failing
/// right term after a matched operator is fatal again.
pub open spec fn expr_outcome(n: Node) -> Outcome
    decreases node_height(n), 0int,
{
    if n.rule != Rule::Expr {
        Outcome::NoMatch
    } else {
        let k = n.children@;
        if k.len() == 0 {
            Outcome::Fatal
        } else {
            proof {
                lemma_forest_height_elem(n.children@, 0);
                if n.children@.len() > 2 {
                    lemma_forest_height_elem(n.children@, 2);
                }
            }
            match term_outcome(k[0]) {
                Outcome::NoMatch => Outcome::Fatal,
                Outcome::Fatal => Outcome::Fatal,
                Outcome::Match => {
                    if k.len() < 2 || operator_outcome(k[1]) is NoMatch {
                        Outcome::Match
                    } else if k.len() < 3 {
                        Outcome::Fatal
                    } else {
                        match term_outcome(k[2]) {
                            Outcome::Match => Outcome::Match,
                            _ => Outcome::Fatal,
                        }
                    }
                },
            }
        }
    }
}

/// Outcome of the term ordered choice: a value, or a nested expression.
pub open spec fn term_outcome(n: Node) -> Outcome
    decreases node_height(n), 0int,
{
    if n.rule != Rule::Term {
        Outcome::NoMatch
    } else {
        let k = n.children@;
        if k.len() == 0 {
            Outcome::NoMatch
        } else {
            proof {
                lemma_forest_height_elem(n.children@, 0);
            }
            if k[0].rule == Rule::Value {
                value_outcome(k[0])
            } else if k[0].rule == Rule::Expr {
                expr_outcome(k[0])
            } else {
                Outcome::NoMatch
            }
        }
    }
}

/// Outcome of the value ordered choice, in declared order: primitive,
/// string, array, tuple.
pub open spec fn value_outcome(n: Node) -> Outcome
    decreases node_height(n), 0int,
{
    if n.rule != Rule::Value {
        Outcome::NoMatch
    } else {
        let k = n.children@;
        if k.len() == 0 {
            Outcome::NoMatch
        } else {
            proof {
                lemma_forest_height_elem(n.children@, 0);
            }
            if k[0].rule == Rule::PrimitiveValue {
                primitive_outcome(k[0])
            } else if k[0].rule == Rule::StringLit {
                string_outcome(k[0])
            } else if k[0].rule == Rule::Array {
                array_outcome(k[0])
            } else if k[0].rule == Rule::Tuple {
                tuple_outcome(k[0])
            } else {
                Outcome::NoMatch
            }
        }
    }
}

/// Outcome of the array builder: its tag, then one parameter list built
/// from its children.
pub open spec fn array_outcome(n: Node) -> Outcome
    decreases node_height(n), 0int,
{
    if n.rule != Rule::Array {
        Outcome::NoMatch
    } else if params_fatal(n.children@, 0) {
        Outcome::Fatal
    } else {
        Outcome::Match
    }
}

/// Outcome of the tuple builder: its tag, then one parameter list built
/// from its children.
pub open spec fn tuple_outcome(n: Node) -> Outcome
    decreases node_height(n), 0int,
{
    if n.rule != Rule::Tuple {
        Outcome::NoMatch
    } else if params_fatal(n.children@, 0) {
        Outcome::Fatal
    } else {
        Outcome::Match
    }
}

/// Whether gathering expressions from position `i` runs into a fatal
/// expression conversion.  A mere `NoMatch` ends the list instead, so a
/// list as such never fails to match.
pub open spec fn params_fatal(ns: Seq<Node>, i: int) -> bool
    decreases forest_height(ns), ns.len() - i,
{
    if i < 0 || i >= ns.len() {
        false
    } else {
        proof {
            lemma_forest_height_elem(ns, i);
        }
        match expr_outcome(ns[i]) {
            Outcome::Match => params_fatal(ns, i + 1),
            Outcome::Fatal => true,
            Outcome::NoMatch => false,
        }
    }
}

/// How many consecutive expressions match from position `i`.
pub open spec fn params_count(ns: Seq<Node>, i: int) -> int
    decreases forest_height(ns), ns.len() - i,
{
    if i < 0 || i >= ns.len() {
        0
    } else {
        proof {
            lemma_forest_height_elem(ns, i);
        }
        if expr_outcome(ns[i]) is Match {
            1 + params_count(ns, i + 1)
        } else {
            0
        }
    }
}

/// Outcome of the single-value expression wrapper: its tag, then one
/// value child; a missing or failing value is fatal.
pub open spec fn expr_inner_outcome(n: Node) -> Outcome {
    if n.rule != Rule::ExprInner {
        Outcome::NoMatch
    } else {
        let k = n.children@;
        if k.len() == 0 {
            Outcome::Fatal
        } else {
            match value_outcome(k[0]) {
                Outcome::Match => Outcome::Match,
                _ => Outcome::Fatal,
            }
        }
    }
}

/// Which expression a matched expression node builds.
pub open spec fn expr_built(e: Expr, n: Node) -> bool
    decreases node_height(n), 0int,
{
    let k = n.children@;
    if k.len() == 0 {
        false
    } else {
        proof {
            lemma_forest_height_elem(n.children@, 0);
            if n.children@.len() > 2 {
                lemma_forest_height_elem(n.children@, 2);
            }
        }
        term_built(e.lhs, k[0]) && (if k.len() < 2 || operator_outcome(k[1]) is NoMatch {
            e.rhs is None
        } else if k.len() < 3 {
            false
        } else {
            e.rhs matches Some((op, t)) && operator_built(op, k[1]) && term_built(t, k[2])
        })
    }
}

/// Which term a matched term node builds.
pub open spec fn term_built(t: Term, n: Node) -> bool
    decreases node_height(n), 0int,
{
    let k = n.children@;
    if k.len() == 0 {
        false
    } else {
        proof {
            lemma_forest_height_elem(n.children@, 0);
        }
        if k[0].rule == Rule::Value {
            t matches Term::Value(v) && value_built(v, k[0])
        } else if k[0].rule == Rule::Expr {
            t matches Term::Expr(b) && expr_built(*b, k[0])
        } else {
            false
        }
    }
}

/// Which value a matched value node builds.
pub open spec fn value_built(v: Value, n: Node) -> bool
    decreases node_height(n), 0int,
{
    let k = n.children@;
    if k.len() == 0 {
        false
    } else {
        proof {
            lemma_forest_height_elem(n.children@, 0);
        }
        if k[0].rule == Rule::PrimitiveValue {
            v matches Value::Primitive(p) && primitive_built(p, k[0])
        } else if k[0].rule == Rule::StringLit {
            v matches Value::String(sl) && string_built(sl, k[0])
        } else if k[0].rule == Rule::Array {
            v matches Value::Array(a) && array_built(a, k[0])
        } else if k[0].rule == Rule::Tuple {
            v matches Value::Tuple(t) && tuple_built(t, k[0])
        } else {
            false
        }
    }
}

/// Which array a matched array node builds.
pub open spec fn array_built(a: Array, n: Node) -> bool
    decreases node_height(n), 0int,
{
    params_built(a.params.params@, n.children@, 0)
}

/// Which tuple a matched tuple node builds.
pub open spec fn tuple_built(t: Tuple, n: Node) -> bool
    decreases node_height(n), 0int,
{
    params_built(t.params.params@, n.children@, 0)
}

/// Which expression list a parameter list gathers from position `i`:
/// one entry per consecutive expression match, in document order.
pub open spec fn params_built(es: Seq<Expr>, ns: Seq<Node>, i: int) -> bool
    decreases forest_height(ns), ns.len() - i,
{
    if i < 0 || i >= ns.len() {
        es.len() == 0
    } else {
        proof {
            lemma_forest_height_elem(ns, i);
        }
        if expr_outcome(ns[i]) is Match {
            es.len() > 0 && expr_built(es[0], ns[i]) && params_built(es.drop_first(), ns, i + 1)
        } else {
            es.len() == 0
        }
    }
}

/// Which single-value wrapper a matched node builds.
pub open spec fn expr_inner_built(ei: ExprInner, n: Node) -> bool {
    let k = n.children@;
    k.len() >= 1 && value_built(ei.val, k[0])
}

} // verus!
