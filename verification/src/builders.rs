//! The executable conversion protocol: one builder per AST node shape.
//!
//! Every builder implements attempt-build over the pending-node cursor:
//! it peeks the next node's rule tag before consuming, so on `NoMatch`
//! the cursor is left exactly where it was; on a match the cursor stands
//! exactly past the consumed node; a fatal failure propagates outward
//! and also leaves the cursor at its entry position, since the whole
//! conversion is abandoned anyway.

use vstd::prelude::*;

use crate::ast::Add;
use crate::ast::Array;
use crate::ast::Char;
use crate::ast::Div;
use crate::ast::Expr;
use crate::ast::ExprInner;
use crate::ast::Float;
use crate::ast::Integer;
use crate::ast::IntegerBin;
use crate::ast::IntegerDec;
use crate::ast::IntegerHex;
use crate::ast::IntegerOct;
use crate::ast::MainProgram;
use crate::ast::Mul;
use crate::ast::Operator;
use crate::ast::Params;
use crate::ast::PrimitiveValue;
use crate::ast::Pow;
use crate::ast::StringLiteral;
use crate::ast::Stmt;
use crate::ast::Sub;
use crate::ast::Term;
use crate::ast::Tuple;
use crate::ast::Value;
use crate::decode::bin_str_to_int;
use crate::decode::check_float_text;
use crate::decode::hex_str_to_int;
use crate::decode::oct_str_to_int;
use crate::decode::parse_i64_radix;
use crate::decode::str_to_char;
use crate::decode::str_to_str_lit;
use crate::errors::ConversionError;
use crate::errors::FatalError;
use crate::errors::FaultKind;
use crate::model::array_built;
use crate::model::array_outcome;
use crate::model::char_built;
use crate::model::char_outcome;
use crate::model::expr_built;
use crate::model::expr_inner_built;
use crate::model::expr_inner_outcome;
use crate::model::expr_outcome;
use crate::model::float_built;
use crate::model::float_outcome;
use crate::model::integer_bin_outcome;
use crate::model::integer_built;
use crate::model::integer_dec_outcome;
use crate::model::integer_hex_outcome;
use crate::model::integer_oct_outcome;
use crate::model::integer_outcome;
use crate::model::leading_stmts;
use crate::model::main_built;
use crate::model::main_outcome;
use crate::model::operator_built;
use crate::model::operator_outcome;
use crate::model::params_built;
use crate::model::params_count;
use crate::model::params_fatal;
use crate::model::primitive_built;
use crate::model::primitive_outcome;
use crate::model::stmt_outcome;
use crate::model::string_built;
use crate::model::string_outcome;
use crate::model::term_built;
use crate::model::term_outcome;
use crate::model::tuple_built;
use crate::model::tuple_outcome;
use crate::model::value_built;
use crate::model::value_outcome;
use crate::node::forest_height;
use crate::node::lemma_child_forest_lower;
use crate::node::Node;
use crate::node::Rule;

verus! {

/// A run of statement-tagged nodes ending at the first other tag pins
/// the leading-statement count.
proof fn lemma_leading_stmts_run(ns: Seq<Node>, i: int, c: int)
    requires
        0 <= i <= c <= ns.len(),
        forall|j: int| i <= j < c ==> #[trigger] ns[j].rule == Rule::Stmt,
        c < ns.len() ==> ns[c].rule != Rule::Stmt,
    ensures
        leading_stmts(ns, i) == c - i,
    decreases c - i,
{
    if i < c {
        lemma_leading_stmts_run(ns, i + 1, c);
    }
}

impl Stmt {
    /// Build one statement marker: its tag is all there is to it.
    pub fn from_nodes(ns: &Vec<Node>, pos: &mut usize) -> (r: Result<Stmt, ConversionError>)
        ensures
            (*old(pos) >= ns@.len() || stmt_outcome(ns@[*old(pos) as int]) is NoMatch) ==> ( r
                matches Err(ConversionError::NoMatch) && *final(pos) == *old(pos)),
            *old(pos) < ns@.len() && stmt_outcome(ns@[*old(pos) as int]) is Match ==> ( r matches Ok(
                v,
            ) && *final(pos) == *old(pos) + 1),
    {
        if *pos < ns.len() && ns[*pos].rule == Rule::Stmt {
            *pos = *pos + 1;
            Ok(Stmt {})
        } else {
            Err(ConversionError::NoMatch)
        }
    }
}

impl MainProgram {
    /// Build the program: consume the root node, then gather one
    /// statement per leading statement child.
    pub fn from_nodes(ns: &Vec<Node>, pos: &mut usize) -> (r: Result<
        MainProgram,
        ConversionError,
    >)
        ensures
            (*old(pos) >= ns@.len() || main_outcome(ns@[*old(pos) as int]) is NoMatch) ==> ( r
                matches Err(ConversionError::NoMatch) && *final(pos) == *old(pos)),
            *old(pos) < ns@.len() && main_outcome(ns@[*old(pos) as int]) is Match ==> ( r matches Ok(
                p,
            ) && main_built(p, ns@[*old(pos) as int]) && *final(pos) == *old(pos) + 1),
    {
        if *pos >= ns.len() || ns[*pos].rule != Rule::Main {
            return Err(ConversionError::NoMatch);
        }
        let n = &ns[*pos];
        let k = &n.children;
        let mut c: usize = 0;
        let mut stmts: Vec<Stmt> = Vec::new();
        loop
            invariant
                c == stmts@.len(),
                c <= k@.len(),
                forall|j: int| 0 <= j < c ==> #[trigger] k@[j].rule == Rule::Stmt,
            ensures
                c == stmts@.len(),
                c <= k@.len(),
                forall|j: int| 0 <= j < c ==> #[trigger] k@[j].rule == Rule::Stmt,
                c >= k@.len() || k@[c as int].rule != Rule::Stmt,
            decreases k@.len() - c,
        {
            match Stmt::from_nodes(k, &mut c) {
                Ok(s) => {
                    stmts.push(s);
                },
                Err(_) => {
                    break ;
                },
            }
        }
        proof {
            lemma_leading_stmts_run(k@, 0, c as int);
        }
        *pos = *pos + 1;
        Ok(MainProgram { stmts })
    }
}

impl Add {
    /// Build the addition marker from its tag.
    pub fn from_nodes(ns: &Vec<Node>, pos: &mut usize) -> (r: Result<Add, ConversionError>)
        ensures
            (*old(pos) >= ns@.len() || ns@[*old(pos) as int].rule != Rule::OpAdd) ==> ( r matches Err(
                ConversionError::NoMatch,
            ) && *final(pos) == *old(pos)),
            *old(pos) < ns@.len() && ns@[*old(pos) as int].rule == Rule::OpAdd ==> ( r matches Ok(v)
                && *final(pos) == *old(pos) + 1),
    {
        if *pos < ns.len() && ns[*pos].rule == Rule::OpAdd {
            *pos = *pos + 1;
            Ok(Add)
        } else {
            Err(ConversionError::NoMatch)
        }
    }
}

impl Sub {
    /// Build the subtraction marker from its tag.
    pub fn from_nodes(ns: &Vec<Node>, pos: &mut usize) -> (r: Result<Sub, ConversionError>)
        ensures
            (*old(pos) >= ns@.len() || ns@[*old(pos) as int].rule != Rule::OpSub) ==> ( r matches Err(
                ConversionError::NoMatch,
            ) && *final(pos) == *old(pos)),
            *old(pos) < ns@.len() && ns@[*old(pos) as int].rule == Rule::OpSub ==> ( r matches Ok(v)
                && *final(pos) == *old(pos) + 1),
    {
        if *pos < ns.len() && ns[*pos].rule == Rule::OpSub {
            *pos = *pos + 1;
            Ok(Sub)
        } else {
            Err(ConversionError::NoMatch)
        }
    }
}

impl Mul {
    /// Build the multiplication marker from its tag.
    pub fn from_nodes(ns: &Vec<Node>, pos: &mut usize) -> (r: Result<Mul, ConversionError>)
        ensures
            (*old(pos) >= ns@.len() || ns@[*old(pos) as int].rule != Rule::OpMul) ==> ( r matches Err(
                ConversionError::NoMatch,
            ) && *final(pos) == *old(pos)),
            *old(pos) < ns@.len() && ns@[*old(pos) as int].rule == Rule::OpMul ==> ( r matches Ok(v)
                && *final(pos) == *old(pos) + 1),
    {
        if *pos < ns.len() && ns[*pos].rule == Rule::OpMul {
            *pos = *pos + 1;
            Ok(Mul)
        } else {
            Err(ConversionError::NoMatch)
        }
    }
}

impl Div {
    /// Build the division marker from its tag.
    pub fn from_nodes(ns: &Vec<Node>, pos: &mut usize) -> (r: Result<Div, ConversionError>)
        ensures
            (*old(pos) >= ns@.len() || ns@[*old(pos) as int].rule != Rule::OpDiv) ==> ( r matches Err(
                ConversionError::NoMatch,
            ) && *final(pos) == *old(pos)),
            *old(pos) < ns@.len() && ns@[*old(pos) as int].rule == Rule::OpDiv ==> ( r matches Ok(v)
                && *final(pos) == *old(pos) + 1),
    {
        if *pos < ns.len() && ns[*pos].rule == Rule::OpDiv {
            *pos = *pos + 1;
            Ok(Div)
        } else {
            Err(ConversionError::NoMatch)
        }
    }
}

impl Pow {
    /// Build the exponentiation marker from its tag.
    pub fn from_nodes(ns: &Vec<Node>, pos: &mut usize) -> (r: Result<Pow, ConversionError>)
        ensures
            (*old(pos) >= ns@.len() || ns@[*old(pos) as int].rule != Rule::OpPow) ==> ( r matches Err(
                ConversionError::NoMatch,
            ) && *final(pos) == *old(pos)),
            *old(pos) < ns@.len() && ns@[*old(pos) as int].rule == Rule::OpPow ==> ( r matches Ok(v)
                && *final(pos) == *old(pos) + 1),
    {
        if *pos < ns.len() && ns[*pos].rule == Rule::OpPow {
            *pos = *pos + 1;
            Ok(Pow)
        } else {
            Err(ConversionError::NoMatch)
        }
    }
}

impl Operator {
    /// Build an operator: try each marker alternative, in declared
    /// order, against the children of the operator node.
    pub fn from_nodes(ns: &Vec<Node>, pos: &mut usize) -> (r: Result<Operator, ConversionError>)
        ensures
            (*old(pos) >= ns@.len() || operator_outcome(ns@[*old(pos) as int]) is NoMatch) ==> ( r
                matches Err(ConversionError::NoMatch) && *final(pos) == *old(pos)),
            *old(pos) < ns@.len() && operator_outcome(ns@[*old(pos) as int]) is Match ==> ( r
                matches Ok(op) && operator_built(op, ns@[*old(pos) as int]) && *final(pos) == *old(
                pos,
            ) + 1),
    {
        if *pos >= ns.len() || ns[*pos].rule != Rule::Operator {
            return Err(ConversionError::NoMatch);
        }
        let n = &ns[*pos];
        let k = &n.children;
        let mut c: usize = 0;
        match Add::from_nodes(k, &mut c) {
            Ok(v) => {
                *pos = *pos + 1;
                return Ok(Operator::Add(v));
            },
            Err(_) => {},
        }
        match Sub::from_nodes(k, &mut c) {
            Ok(v) => {
                *pos = *pos + 1;
                return Ok(Operator::Sub(v));
            },
            Err(_) => {},
        }
        match Mul::from_nodes(k, &mut c) {
            Ok(v) => {
                *pos = *pos + 1;
                return Ok(Operator::Mul(v));
            },
            Err(_) => {},
        }
        match Div::from_nodes(k, &mut c) {
            Ok(v) => {
                *pos = *pos + 1;
                return Ok(Operator::Div(v));
            },
            Err(_) => {},
        }
        match Pow::from_nodes(k, &mut c) {
            Ok(v) => {
                *pos = *pos + 1;
                return Ok(Operator::Pow(v));
            },
            Err(_) => {},
        }
        Err(ConversionError::NoMatch)
    }
}

impl IntegerDec {
    /// Build a decimal integer literal: decode the node's span in base
    /// ten; a failing decode is fatal.
    pub fn from_nodes(ns: &Vec<Node>, pos: &mut usize) -> (r: Result<IntegerDec, ConversionError>)
        ensures
            (*old(pos) >= ns@.len() || integer_dec_outcome(ns@[*old(pos) as int]) is NoMatch) ==> ( r
                matches Err(ConversionError::NoMatch) && *final(pos) == *old(pos)),
            *old(pos) < ns@.len() && integer_dec_outcome(ns@[*old(pos) as int]) is Fatal ==> ( r
                matches Err(ConversionError::Fatal(f)) && f.span@ == ns@[*old(pos) as int].text@
                && (f.kind matches FaultKind::Literal(_)) && *final(pos) == *old(pos)),
            *old(pos) < ns@.len() && integer_dec_outcome(ns@[*old(pos) as int]) is Match ==> r
                == Ok::<IntegerDec, ConversionError>(
                IntegerDec {
                    val: crate::decode::int_text_value(ns@[*old(pos) as int].text@, 10) as i64,
                },
            ) && *final(pos) == *old(pos) + 1,
    {
        if *pos >= ns.len() || ns[*pos].rule != Rule::IntegerDec {
            return Err(ConversionError::NoMatch);
        }
        let n = &ns[*pos];
        match parse_i64_radix(n.text.as_str(), 10) {
            Ok(v) => {
                *pos = *pos + 1;
                Ok(IntegerDec { val: v })
            },
            Err(e) => Err(
                ConversionError::Fatal(
                    FatalError { span: n.text.clone(), kind: FaultKind::Literal(e) },
                ),
            ),
        }
    }
}

impl IntegerBin {
    /// Build a binary integer literal: strip the two prefix characters
    /// and decode in base two; a failing decode is fatal.
    pub fn from_nodes(ns: &Vec<Node>, pos: &mut usize) -> (r: Result<IntegerBin, ConversionError>)
        ensures
            (*old(pos) >= ns@.len() || integer_bin_outcome(ns@[*old(pos) as int]) is NoMatch) ==> ( r
                matches Err(ConversionError::NoMatch) && *final(pos) == *old(pos)),
            *old(pos) < ns@.len() && integer_bin_outcome(ns@[*old(pos) as int]) is Fatal ==> ( r
                matches Err(ConversionError::Fatal(f)) && f.span@ == ns@[*old(pos) as int].text@
                && (f.kind matches FaultKind::Literal(_)) && *final(pos) == *old(pos)),
            *old(pos) < ns@.len() && integer_bin_outcome(ns@[*old(pos) as int]) is Match ==> r
                == Ok::<IntegerBin, ConversionError>(
                IntegerBin {
                    val: crate::model::prefixed_text_value(ns@[*old(pos) as int].text@, 2) as i64,
                },
            ) && *final(pos) == *old(pos) + 1,
    {
        if *pos >= ns.len() || ns[*pos].rule != Rule::IntegerBin {
            return Err(ConversionError::NoMatch);
        }
        let n = &ns[*pos];
        match bin_str_to_int(n.text.as_str()) {
            Ok(v) => {
                *pos = *pos + 1;
                Ok(IntegerBin { val: v })
            },
            Err(e) => Err(
                ConversionError::Fatal(
                    FatalError { span: n.text.clone(), kind: FaultKind::Literal(e) },
                ),
            ),
        }
    }
}

impl IntegerOct {
    /// Build an octal integer literal: strip the two prefix characters
    /// and decode in base eight; a failing decode is fatal.
    pub fn from_nodes(ns: &Vec<Node>, pos: &mut usize) -> (r: Result<IntegerOct, ConversionError>)
        ensures
            (*old(pos) >= ns@.len() || integer_oct_outcome(ns@[*old(pos) as int]) is NoMatch) ==> ( r
                matches Err(ConversionError::NoMatch) && *final(pos) == *old(pos)),
            *old(pos) < ns@.len() && integer_oct_outcome(ns@[*old(pos) as int]) is Fatal ==> ( r
                matches Err(ConversionError::Fatal(f)) && f.span@ == ns@[*old(pos) as int].text@
                && (f.kind matches FaultKind::Literal(_)) && *final(pos) == *old(pos)),
            *old(pos) < ns@.len() && integer_oct_outcome(ns@[*old(pos) as int]) is Match ==> r
                == Ok::<IntegerOct, ConversionError>(
                IntegerOct {
                    val: crate::model::prefixed_text_value(ns@[*old(pos) as int].text@, 8) as i64,
                },
            ) && *final(pos) == *old(pos) + 1,
    {
        if *pos >= ns.len() || ns[*pos].rule != Rule::IntegerOct {
            return Err(ConversionError::NoMatch);
        }
        let n = &ns[*pos];
        match oct_str_to_int(n.text.as_str()) {
            Ok(v) => {
                *pos = *pos + 1;
                Ok(IntegerOct { val: v })
            },
            Err(e) => Err(
                ConversionError::Fatal(
                    FatalError { span: n.text.clone(), kind: FaultKind::Literal(e) },
                ),
            ),
        }
    }
}

impl IntegerHex {
    /// Build a hexadecimal integer literal: strip the two prefix
    /// characters and decode in base sixteen; a failing decode is fatal.
    pub fn from_nodes(ns: &Vec<Node>, pos: &mut usize) -> (r: Result<IntegerHex, ConversionError>)
        ensures
            (*old(pos) >= ns@.len() || integer_hex_outcome(ns@[*old(pos) as int]) is NoMatch) ==> ( r
                matches Err(ConversionError::NoMatch) && *final(pos) == *old(pos)),
            *old(pos) < ns@.len() && integer_hex_outcome(ns@[*old(pos) as int]) is Fatal ==> ( r
                matches Err(ConversionError::Fatal(f)) && f.span@ == ns@[*old(pos) as int].text@
                && (f.kind matches FaultKind::Literal(_)) && *final(pos) == *old(pos)),
            *old(pos) < ns@.len() && integer_hex_outcome(ns@[*old(pos) as int]) is Match ==> r
                == Ok::<IntegerHex, ConversionError>(
                IntegerHex {
                    val: crate::model::prefixed_text_value(ns@[*old(pos) as int].text@, 16) as i64,
                },
            ) && *final(pos) == *old(pos) + 1,
    {
        if *pos >= ns.len() || ns[*pos].rule != Rule::IntegerHex {
            return Err(ConversionError::NoMatch);
        }
        let n = &ns[*pos];
        match hex_str_to_int(n.text.as_str()) {
            Ok(v) => {
                *pos = *pos + 1;
                Ok(IntegerHex { val: v })
            },
            Err(e) => Err(
                ConversionError::Fatal(
                    FatalError { span: n.text.clone(), kind: FaultKind::Literal(e) },
                ),
            ),
        }
    }
}

impl Integer {
    /// Build an integer literal: try each radix alternative, in
    /// declared order, against the children of the integer node.  The
    /// choice goes by the child's tag alone: a node tagged with one
    /// radix never reaches another radix's decoder.
    pub fn from_nodes(ns: &Vec<Node>, pos: &mut usize) -> (r: Result<Integer, ConversionError>)
        ensures
            (*old(pos) >= ns@.len() || integer_outcome(ns@[*old(pos) as int]) is NoMatch) ==> ( r
                matches Err(ConversionError::NoMatch) && *final(pos) == *old(pos)),
            *old(pos) < ns@.len() && integer_outcome(ns@[*old(pos) as int]) is Fatal ==> ( r
                matches Err(ConversionError::Fatal(_)) && *final(pos) == *old(pos)),
            *old(pos) < ns@.len() && integer_outcome(ns@[*old(pos) as int]) is Match ==> ( r
                matches Ok(v) && integer_built(v, ns@[*old(pos) as int]) && *final(pos) == *old(pos)
                + 1),
    {
        if *pos >= ns.len() || ns[*pos].rule != Rule::Integer {
            return Err(ConversionError::NoMatch);
        }
        let n = &ns[*pos];
        let k = &n.children;
        let mut c: usize = 0;
        match IntegerDec::from_nodes(k, &mut c) {
            Ok(v) => {
                *pos = *pos + 1;
                return Ok(Integer::Dec(v));
            },
            Err(ConversionError::Fatal(e)) => {
                return Err(ConversionError::Fatal(e));
            },
            Err(ConversionError::NoMatch) => {},
        }
        match IntegerBin::from_nodes(k, &mut c) {
            Ok(v) => {
                *pos = *pos + 1;
                return Ok(Integer::Bin(v));
            },
            Err(ConversionError::Fatal(e)) => {
                return Err(ConversionError::Fatal(e));
            },
            Err(ConversionError::NoMatch) => {},
        }
        match IntegerOct::from_nodes(k, &mut c) {
            Ok(v) => {
                *pos = *pos + 1;
                return Ok(Integer::Oct(v));
            },
            Err(ConversionError::Fatal(e)) => {
                return Err(ConversionError::Fatal(e));
            },
            Err(ConversionError::NoMatch) => {},
        }
        match IntegerHex::from_nodes(k, &mut c) {
            Ok(v) => {
                *pos = *pos + 1;
                return Ok(Integer::Hex(v));
            },
            Err(ConversionError::Fatal(e)) => {
                return Err(ConversionError::Fatal(e));
            },
            Err(ConversionError::NoMatch) => {},
        }
        Err(ConversionError::NoMatch)
    }
}

impl Char {
    /// Build a character literal: trim the quotes and take the first
    /// remaining character; a span with none left is fatal.
    pub fn from_nodes(ns: &Vec<Node>, pos: &mut usize) -> (r: Result<Char, ConversionError>)
        ensures
            (*old(pos) >= ns@.len() || char_outcome(ns@[*old(pos) as int]) is NoMatch) ==> ( r
                matches Err(ConversionError::NoMatch) && *final(pos) == *old(pos)),
            *old(pos) < ns@.len() && char_outcome(ns@[*old(pos) as int]) is Fatal ==> ( r matches Err(
                ConversionError::Fatal(f),
            ) && f.span@ == ns@[*old(pos) as int].text@ && f.kind == FaultKind::Literal(
                crate::errors::DecodeError::EmptyChar,
            ) && *final(pos) == *old(pos)),
            *old(pos) < ns@.len() && char_outcome(ns@[*old(pos) as int]) is Match ==> ( r matches Ok(
                c,
            ) && char_built(c, ns@[*old(pos) as int]) && *final(pos) == *old(pos) + 1),
    {
        if *pos >= ns.len() || ns[*pos].rule != Rule::CharLit {
            return Err(ConversionError::NoMatch);
        }
        let n = &ns[*pos];
        match str_to_char(n.text.as_str()) {
            Ok(c) => {
                *pos = *pos + 1;
                Ok(Char { val: c })
            },
            Err(e) => Err(
                ConversionError::Fatal(
                    FatalError { span: n.text.clone(), kind: FaultKind::Literal(e) },
                ),
            ),
        }
    }
}

impl StringLiteral {
    /// Build a string literal: every leading and trailing double quote
    /// of the span is removed; this cannot fail.
    pub fn from_nodes(ns: &Vec<Node>, pos: &mut usize) -> (r: Result<
        StringLiteral,
        ConversionError,
    >)
        ensures
            (*old(pos) >= ns@.len() || string_outcome(ns@[*old(pos) as int]) is NoMatch) ==> ( r
                matches Err(ConversionError::NoMatch) && *final(pos) == *old(pos)),
            *old(pos) < ns@.len() && string_outcome(ns@[*old(pos) as int]) is Match ==> ( r
                matches Ok(sl) && string_built(sl, ns@[*old(pos) as int]) && *final(pos) == *old(
                pos,
            ) + 1),
    {
        if *pos >= ns.len() || ns[*pos].rule != Rule::StringLit {
            return Err(ConversionError::NoMatch);
        }
        let n = &ns[*pos];
        let trimmed = str_to_str_lit(n.text.as_str());
        let val = trimmed.to_owned();
        *pos = *pos + 1;
        Ok(StringLiteral { val })
    }
}

impl Float {
    /// Build a float literal: the span must be of the decimal shape;
    /// it is kept as text for the consumer to realize as a 64-bit
    /// floating value.
    pub fn from_nodes(ns: &Vec<Node>, pos: &mut usize) -> (r: Result<Float, ConversionError>)
        ensures
            (*old(pos) >= ns@.len() || float_outcome(ns@[*old(pos) as int]) is NoMatch) ==> ( r
                matches Err(ConversionError::NoMatch) && *final(pos) == *old(pos)),
            *old(pos) < ns@.len() && float_outcome(ns@[*old(pos) as int]) is Fatal ==> ( r
                matches Err(ConversionError::Fatal(f)) && f.span@ == ns@[*old(pos) as int].text@
                && f.kind == FaultKind::Literal(crate::errors::DecodeError::BadFloat)
                && *final(pos) == *old(pos)),
            *old(pos) < ns@.len() && float_outcome(ns@[*old(pos) as int]) is Match ==> ( r
                matches Ok(f) && float_built(f, ns@[*old(pos) as int]) && *final(pos) == *old(pos)
                + 1),
    {
        if *pos >= ns.len() || ns[*pos].rule != Rule::Float {
            return Err(ConversionError::NoMatch);
        }
        let n = &ns[*pos];
        if check_float_text(n.text.as_str()) {
            *pos = *pos + 1;
            Ok(Float { text: n.text.clone() })
        } else {
            Err(
                ConversionError::Fatal(
                    FatalError {
                        span: n.text.clone(),
                        kind: FaultKind::Literal(crate::errors::DecodeError::BadFloat),
                    },
                ),
            )
        }
    }
}

impl PrimitiveValue {
    /// Build a primitive value: try character, integer, float, in
    /// declared order, against the children of the node.
    pub fn from_nodes(ns: &Vec<Node>, pos: &mut usize) -> (r: Result<
        PrimitiveValue,
        ConversionError,
    >)
        ensures
            (*old(pos) >= ns@.len() || primitive_outcome(ns@[*old(pos) as int]) is NoMatch) ==> ( r
                matches Err(ConversionError::NoMatch) && *final(pos) == *old(pos)),
            *old(pos) < ns@.len() && primitive_outcome(ns@[*old(pos) as int]) is Fatal ==> ( r
                matches Err(ConversionError::Fatal(_)) && *final(pos) == *old(pos)),
            *old(pos) < ns@.len() && primitive_outcome(ns@[*old(pos) as int]) is Match ==> ( r
                matches Ok(p) && primitive_built(p, ns@[*old(pos) as int]) && *final(pos) == *old(
                pos,
            ) + 1),
    {
        if *pos >= ns.len() || ns[*pos].rule != Rule::PrimitiveValue {
            return Err(ConversionError::NoMatch);
        }
        let n = &ns[*pos];
        let k = &n.children;
        let mut c: usize = 0;
        match Char::from_nodes(k, &mut c) {
            Ok(v) => {
                *pos = *pos + 1;
                return Ok(PrimitiveValue::Char(v));
            },
            Err(ConversionError::Fatal(e)) => {
                return Err(ConversionError::Fatal(e));
            },
            Err(ConversionError::NoMatch) => {},
        }
        match Integer::from_nodes(k, &mut c) {
            Ok(v) => {
                *pos = *pos + 1;
                return Ok(PrimitiveValue::Integer(v));
            },
            Err(ConversionError::Fatal(e)) => {
                return Err(ConversionError::Fatal(e));
            },
            Err(ConversionError::NoMatch) => {},
        }
        match Float::from_nodes(k, &mut c) {
            Ok(v) => {
                *pos = *pos + 1;
                return Ok(PrimitiveValue::Float(v));
            },
            Err(ConversionError::Fatal(e)) => {
                return Err(ConversionError::Fatal(e));
            },
            Err(ConversionError::NoMatch) => {},
        }
        Err(ConversionError::NoMatch)
    }
}

impl Expr {
    /// Build an expression: consume the expression node, build the left
    /// term from its children, then an optional operator with its right
    /// term.  Operator and right term are both present or both absent;
    /// once the expression tag is consumed, a failing child is fatal.
    pub fn from_nodes(ns: &Vec<Node>, pos: &mut usize) -> (r: Result<Expr, ConversionError>)
        ensures
            (*old(pos) >= ns@.len() || expr_outcome(ns@[*old(pos) as int]) is NoMatch) ==> ( r
                matches Err(ConversionError::NoMatch) && *final(pos) == *old(pos)),
            *old(pos) < ns@.len() && expr_outcome(ns@[*old(pos) as int]) is Fatal ==> ( r
                matches Err(ConversionError::Fatal(_)) && *final(pos) == *old(pos)),
            *old(pos) < ns@.len() && expr_outcome(ns@[*old(pos) as int]) is Match ==> ( r matches Ok(
                e,
            ) && expr_built(e, ns@[*old(pos) as int]) && *final(pos) == *old(pos) + 1),
        decreases forest_height(ns@), 0int,
    {
        if *pos >= ns.len() || ns[*pos].rule != Rule::Expr {
            return Err(ConversionError::NoMatch);
        }
        proof {
            lemma_child_forest_lower(ns@, *pos as int);
        }
        let n = &ns[*pos];
        let k = &n.children;
        let mut c: usize = 0;
        let lhs = match Term::from_nodes(k, &mut c) {
            Ok(t) => t,
            Err(ConversionError::Fatal(e)) => {
                return Err(ConversionError::Fatal(e));
            },
            Err(ConversionError::NoMatch) => {
                return Err(
                    ConversionError::Fatal(
                        FatalError { span: n.text.clone(), kind: FaultKind::MissingChild },
                    ),
                );
            },
        };
        let rhs = match Operator::from_nodes(k, &mut c) {
            Err(ConversionError::NoMatch) => None,
            Err(ConversionError::Fatal(e)) => {
                return Err(ConversionError::Fatal(e));
            },
            Ok(op) => {
                match Term::from_nodes(k, &mut c) {
                    Ok(t) => Some((op, t)),
                    Err(ConversionError::Fatal(e)) => {
                        return Err(ConversionError::Fatal(e));
                    },
                    Err(ConversionError::NoMatch) => {
                        return Err(
                            ConversionError::Fatal(
                                FatalError { span: n.text.clone(), kind: FaultKind::MissingChild },
                            ),
                        );
                    },
                }
            },
        };
        *pos = *pos + 1;
        Ok(Expr { lhs, rhs })
    }
}

impl Term {
    /// Build a term: a value, or else a nested boxed expression, tried
    /// in that order against the children of the term node.
    pub fn from_nodes(ns: &Vec<Node>, pos: &mut usize) -> (r: Result<Term, ConversionError>)
        ensures
            (*old(pos) >= ns@.len() || term_outcome(ns@[*old(pos) as int]) is NoMatch) ==> ( r
                matches Err(ConversionError::NoMatch) && *final(pos) == *old(pos)),
            *old(pos) < ns@.len() && term_outcome(ns@[*old(pos) as int]) is Fatal ==> ( r matches Err(
                ConversionError::Fatal(_),
            ) && *final(pos) == *old(pos)),
            *old(pos) < ns@.len() && term_outcome(ns@[*old(pos) as int]) is Match ==> ( r matches Ok(
                t,
            ) && term_built(t, ns@[*old(pos) as int]) && *final(pos) == *old(pos) + 1),
        decreases forest_height(ns@), 0int,
    {
        if *pos >= ns.len() || ns[*pos].rule != Rule::Term {
            return Err(ConversionError::NoMatch);
        }
        proof {
            lemma_child_forest_lower(ns@, *pos as int);
        }
        let n = &ns[*pos];
        let k = &n.children;
        let mut c: usize = 0;
        match Value::from_nodes(k, &mut c) {
            Ok(v) => {
                *pos = *pos + 1;
                return Ok(Term::Value(v));
            },
            Err(ConversionError::Fatal(e)) => {
                return Err(ConversionError::Fatal(e));
            },
            Err(ConversionError::NoMatch) => {},
        }
        match Expr::from_nodes(k, &mut c) {
            Ok(e) => {
                *pos = *pos + 1;
                Ok(Term::Expr(Box::new(e)))
            },
            Err(ConversionError::Fatal(e)) => Err(ConversionError::Fatal(e)),
            Err(ConversionError::NoMatch) => Err(ConversionError::NoMatch),
        }
    }
}

impl Value {
    /// Build a value: primitive, string, array, tuple, tried in
    /// declared order against the children of the value node.
    pub fn from_nodes(ns: &Vec<Node>, pos: &mut usize) -> (r: Result<Value, ConversionError>)
        ensures
            (*old(pos) >= ns@.len() || value_outcome(ns@[*old(pos) as int]) is NoMatch) ==> ( r
                matches Err(ConversionError::NoMatch) && *final(pos) == *old(pos)),
            *old(pos) < ns@.len() && value_outcome(ns@[*old(pos) as int]) is Fatal ==> ( r
                matches Err(ConversionError::Fatal(_)) && *final(pos) == *old(pos)),
            *old(pos) < ns@.len() && value_outcome(ns@[*old(pos) as int]) is Match ==> ( r matches Ok(
                v,
            ) && value_built(v, ns@[*old(pos) as int]) && *final(pos) == *old(pos) + 1),
        decreases forest_height(ns@), 0int,
    {
        if *pos >= ns.len() || ns[*pos].rule != Rule::Value {
            return Err(ConversionError::NoMatch);
        }
        proof {
            lemma_child_forest_lower(ns@, *pos as int);
        }
        let n = &ns[*pos];
        let k = &n.children;
        let mut c: usize = 0;
        match PrimitiveValue::from_nodes(k, &mut c) {
            Ok(v) => {
                *pos = *pos + 1;
                return Ok(Value::Primitive(v));
            },
            Err(ConversionError::Fatal(e)) => {
                return Err(ConversionError::Fatal(e));
            },
            Err(ConversionError::NoMatch) => {},
        }
        match StringLiteral::from_nodes(k, &mut c) {
            Ok(v) => {
                *pos = *pos + 1;
                return Ok(Value::String(v));
            },
            Err(ConversionError::Fatal(e)) => {
                return Err(ConversionError::Fatal(e));
            },
            Err(ConversionError::NoMatch) => {},
        }
        match Array::from_nodes(k, &mut c) {
            Ok(v) => {
                *pos = *pos + 1;
                return Ok(Value::Array(v));
            },
            Err(ConversionError::Fatal(e)) => {
                return Err(ConversionError::Fatal(e));
            },
            Err(ConversionError::NoMatch) => {},
        }
        match Tuple::from_nodes(k, &mut c) {
            Ok(v) => {
                *pos = *pos + 1;
                return Ok(Value::Tuple(v));
            },
            Err(ConversionError::Fatal(e)) => {
                return Err(ConversionError::Fatal(e));
            },
            Err(ConversionError::NoMatch) => {},
        }
        Err(ConversionError::NoMatch)
    }
}

impl Params {
    /// Build a parameter list: gather expressions until the first
    /// `NoMatch`, which ends the list; an empty list still matches.  A
    /// fatal expression conversion is the list's only failure.
    pub fn from_nodes(ns: &Vec<Node>, pos: &mut usize) -> (r: Result<Params, ConversionError>)
        ensures
            params_fatal(ns@, *old(pos) as int) ==> ( r matches Err(ConversionError::Fatal(_))
                && *final(pos) == *old(pos)),
            !params_fatal(ns@, *old(pos) as int) ==> (r matches Ok(p) && params_built(
                p.params@,
                ns@,
                *old(pos) as int,
            ) && *final(pos) == *old(pos) + params_count(ns@, *old(pos) as int)),
        decreases forest_height(ns@), ns@.len() - *pos,
    {
        let entry: usize = *pos;
        if entry >= ns.len() {
            return Ok(Params { params: Vec::new() });
        }
        match Expr::from_nodes(ns, pos) {
            Err(ConversionError::NoMatch) => Ok(Params { params: Vec::new() }),
            Err(ConversionError::Fatal(e)) => Err(ConversionError::Fatal(e)),
            Ok(e) => {
                match Params::from_nodes(ns, pos) {
                    Ok(rest) => {
                        let mut combined: Vec<Expr> = Vec::new();
                        combined.push(e);
                        let mut rest_params = rest.params;
                        let ghost rest_seq = rest_params@;
                        combined.append(&mut rest_params);
                        proof {
                            assert(combined@.drop_first() =~= rest_seq);
                        }
                        Ok(Params { params: combined })
                    },
                    Err(err) => {
                        *pos = entry;
                        Err(err)
                    },
                }
            },
        }
    }
}

impl Array {
    /// Build an array: consume its tag and hand its children to the
    /// parameter-list builder for its single field.
    pub fn from_nodes(ns: &Vec<Node>, pos: &mut usize) -> (r: Result<Array, ConversionError>)
        ensures
            (*old(pos) >= ns@.len() || array_outcome(ns@[*old(pos) as int]) is NoMatch) ==> ( r
                matches Err(ConversionError::NoMatch) && *final(pos) == *old(pos)),
            *old(pos) < ns@.len() && array_outcome(ns@[*old(pos) as int]) is Fatal ==> ( r
                matches Err(ConversionError::Fatal(_)) && *final(pos) == *old(pos)),
            *old(pos) < ns@.len() && array_outcome(ns@[*old(pos) as int]) is Match ==> ( r
                matches Ok(a) && array_built(a, ns@[*old(pos) as int]) && *final(pos) == *old(pos)
                + 1),
        decreases forest_height(ns@), 0int,
    {
        if *pos >= ns.len() || ns[*pos].rule != Rule::Array {
            return Err(ConversionError::NoMatch);
        }
        proof {
            lemma_child_forest_lower(ns@, *pos as int);
        }
        let n = &ns[*pos];
        let k = &n.children;
        let mut c: usize = 0;
        match Params::from_nodes(k, &mut c) {
            Ok(p) => {
                *pos = *pos + 1;
                Ok(Array { params: p })
            },
            Err(e) => Err(e),
        }
    }
}

impl Tuple {
    /// Build a tuple: consume its tag and hand its children to the
    /// parameter-list builder for its single field.
    pub fn from_nodes(ns: &Vec<Node>, pos: &mut usize) -> (r: Result<Tuple, ConversionError>)
        ensures
            (*old(pos) >= ns@.len() || tuple_outcome(ns@[*old(pos) as int]) is NoMatch) ==> ( r
                matches Err(ConversionError::NoMatch) && *final(pos) == *old(pos)),
            *old(pos) < ns@.len() && tuple_outcome(ns@[*old(pos) as int]) is Fatal ==> ( r
                matches Err(ConversionError::Fatal(_)) && *final(pos) == *old(pos)),
            *old(pos) < ns@.len() && tuple_outcome(ns@[*old(pos) as int]) is Match ==> ( r
                matches Ok(t) && tuple_built(t, ns@[*old(pos) as int]) && *final(pos) == *old(pos)
                + 1),
        decreases forest_height(ns@), 0int,
    {
        if *pos >= ns.len() || ns[*pos].rule != Rule::Tuple {
            return Err(ConversionError::NoMatch);
        }
        proof {
            lemma_child_forest_lower(ns@, *pos as int);
        }
        let n = &ns[*pos];
        let k = &n.children;
        let mut c: usize = 0;
        match Params::from_nodes(k, &mut c) {
            Ok(p) => {
                *pos = *pos + 1;
                Ok(Tuple { params: p })
            },
            Err(e) => Err(e),
        }
    }
}

impl ExprInner {
    /// Build a single-value expression wrapper: consume its tag, then
    /// build exactly one value from its children; a missing or failing
    /// value is fatal.
    pub fn from_nodes(ns: &Vec<Node>, pos: &mut usize) -> (r: Result<ExprInner, ConversionError>)
        ensures
            (*old(pos) >= ns@.len() || expr_inner_outcome(ns@[*old(pos) as int]) is NoMatch) ==> ( r
                matches Err(ConversionError::NoMatch) && *final(pos) == *old(pos)),
            *old(pos) < ns@.len() && expr_inner_outcome(ns@[*old(pos) as int]) is Fatal ==> ( r
                matches Err(ConversionError::Fatal(_)) && *final(pos) == *old(pos)),
            *old(pos) < ns@.len() && expr_inner_outcome(ns@[*old(pos) as int]) is Match ==> ( r
                matches Ok(ei) && expr_inner_built(ei, ns@[*old(pos) as int]) && *final(pos)
                == *old(pos) + 1),
    {
        if *pos >= ns.len() || ns[*pos].rule != Rule::ExprInner {
            return Err(ConversionError::NoMatch);
        }
        let n = &ns[*pos];
        let k = &n.children;
        let mut c: usize = 0;
        match Value::from_nodes(k, &mut c) {
            Ok(v) => {
                *pos = *pos + 1;
                Ok(ExprInner { val: v })
            },
            Err(ConversionError::Fatal(e)) => Err(ConversionError::Fatal(e)),
            Err(ConversionError::NoMatch) => Err(
                ConversionError::Fatal(
                    FatalError { span: n.text.clone(), kind: FaultKind::MissingChild },
                ),
            ),
        }
    }
}

} // verus!
