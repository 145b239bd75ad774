//! Protocol-wide properties, stated and proved once over the
//! specification of the builders.

use vstd::prelude::*;

use crate::ast::Expr;
use crate::ast::Integer;
use crate::decode::int_text_value;
use crate::model::array_outcome;
use crate::model::char_outcome;
use crate::model::expr_built;
use crate::model::expr_inner_outcome;
use crate::model::expr_outcome;
use crate::model::float_outcome;
use crate::model::integer_bin_outcome;
use crate::model::integer_built;
use crate::model::integer_dec_outcome;
use crate::model::integer_hex_outcome;
use crate::model::integer_oct_outcome;
use crate::model::integer_outcome;
use crate::model::main_outcome;
use crate::model::operator_built;
use crate::model::operator_outcome;
use crate::model::params_count;
use crate::model::params_fatal;
use crate::model::prefixed_text_value;
use crate::model::primitive_outcome;
use crate::model::stmt_outcome;
use crate::model::string_outcome;
use crate::model::term_built;
use crate::model::term_outcome;
use crate::model::tuple_outcome;
use crate::model::value_outcome;
use crate::node::Node;
use crate::node::Rule;

verus! {

/// A parameter list asked to match where no expression matches - an
/// empty run - still matches, as the empty list: it never reports
/// `NoMatch` and, here, no fatal failure either.  Together with the
/// parameter-list builder's contract this says the build returns an
/// empty `Matched` list.
pub proof fn lemma_params_empty_match(ns: Seq<Node>, i: int)
    requires
        0 <= i,
        i >= ns.len() || expr_outcome(ns[i]) is NoMatch,
    ensures
        !params_fatal(ns, i),
        params_count(ns, i) == 0,
{
}

/// Dispatch goes by the rule tag, never by sniffing text: a node tagged
/// as a hexadecimal integer is `NoMatch` to the decimal builder even if
/// its text is all decimal digits, and the other radix builders refuse
/// each other's tags the same way.
pub proof fn lemma_radix_tag_dispatch(n: Node)
    ensures
        n.rule != Rule::IntegerDec ==> integer_dec_outcome(n) is NoMatch,
        n.rule != Rule::IntegerBin ==> integer_bin_outcome(n) is NoMatch,
        n.rule != Rule::IntegerOct ==> integer_oct_outcome(n) is NoMatch,
        n.rule != Rule::IntegerHex ==> integer_hex_outcome(n) is NoMatch,
{
}

/// A mismatched rule tag is `NoMatch` at every builder entry point;
/// each builder's contract then adds that the cursor stands exactly
/// where it stood.
pub proof fn lemma_wrong_tag_no_match(n: Node)
    ensures
        n.rule != Rule::Main ==> main_outcome(n) is NoMatch,
        n.rule != Rule::Stmt ==> stmt_outcome(n) is NoMatch,
        n.rule != Rule::Expr ==> expr_outcome(n) is NoMatch,
        n.rule != Rule::ExprInner ==> expr_inner_outcome(n) is NoMatch,
        n.rule != Rule::Term ==> term_outcome(n) is NoMatch,
        n.rule != Rule::Value ==> value_outcome(n) is NoMatch,
        n.rule != Rule::PrimitiveValue ==> primitive_outcome(n) is NoMatch,
        n.rule != Rule::StringLit ==> string_outcome(n) is NoMatch,
        n.rule != Rule::CharLit ==> char_outcome(n) is NoMatch,
        n.rule != Rule::Float ==> float_outcome(n) is NoMatch,
        n.rule != Rule::Integer ==> integer_outcome(n) is NoMatch,
        n.rule != Rule::Operator ==> operator_outcome(n) is NoMatch,
        n.rule != Rule::Array ==> array_outcome(n) is NoMatch,
        n.rule != Rule::Tuple ==> tuple_outcome(n) is NoMatch,
{
}

/// An expression node without a matching operator child builds with an
/// empty right-hand side.
pub proof fn lemma_expr_without_operator(e: Expr, n: Node)
    requires
        expr_built(e, n),
        n.children@.len() < 2 || operator_outcome(n.children@[1]) is NoMatch,
    ensures
        e.rhs is None,
{
}

/// An expression node with a matching operator child builds with the
/// operator and its right term both present - never one without the
/// other.
pub proof fn lemma_expr_with_operator(e: Expr, n: Node)
    requires
        expr_built(e, n),
        n.children@.len() >= 3,
        operator_outcome(n.children@[1]) is Match,
    ensures
        e.rhs matches Some(p) && operator_built(p.0, n.children@[1]) && term_built(
            p.1,
            n.children@[2],
        ),
{
}

/// A matched integer literal holds exactly the base-interpreted value
/// of its source text, whatever the radix tag.
pub proof fn lemma_integer_value_exact(v: Integer, n: Node)
    requires
        integer_outcome(n) is Match,
        integer_built(v, n),
    ensures
        n.children@[0].rule == Rule::IntegerDec ==> v.spec_i64() == int_text_value(
            n.children@[0].text@,
            10,
        ),
        n.children@[0].rule == Rule::IntegerBin ==> v.spec_i64() == prefixed_text_value(
            n.children@[0].text@,
            2,
        ),
        n.children@[0].rule == Rule::IntegerOct ==> v.spec_i64() == prefixed_text_value(
            n.children@[0].text@,
            8,
        ),
        n.children@[0].rule == Rule::IntegerHex ==> v.spec_i64() == prefixed_text_value(
            n.children@[0].text@,
            16,
        ),
{
}

} // verus!
