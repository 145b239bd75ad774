//! The typed abstract syntax tree that conversion emits.
//!
//! Every node is immutable once its builder returns, and ownership is
//! strictly tree-shaped: a parent exclusively owns its children.

use vstd::prelude::*;

verus! {

/// The root of a converted tree: the program's statements in order.
#[derive(Debug, Clone)]
pub struct MainProgram {
    pub stmts: Vec<Stmt>,
}

/// A statement: an opaque marker with no payload, one per statement-rule
/// match.
#[derive(Debug, Clone, PartialEq, Eq, Structural)]
pub struct Stmt {}

/// A binary expression: a left term and, when an operator token was
/// matched, exactly one operator together with its right term.
#[derive(Debug)]
pub struct Expr {
    pub lhs: Term,
    pub rhs: Option<(Operator, Term)>,
}

/// A single-value expression wrapper.
#[derive(Debug)]
pub struct ExprInner {
    pub val: Value,
}

/// A term: either a value, or a nested parenthesized sub-expression.
#[derive(Debug)]
pub enum Term {
    Value(Value),
    Expr(Box<Expr>),
}

/// A value: a primitive literal, a string literal, or a sequence
/// construct.
#[derive(Debug)]
pub enum Value {
    Primitive(PrimitiveValue),
    String(StringLiteral),
    Array(Array),
    Tuple(Tuple),
}

/// A primitive literal value.
#[derive(Debug, Clone)]
pub enum PrimitiveValue {
    Char(Char),
    Integer(Integer),
    Float(Float),
}

/// An ordered, possibly empty list of expressions, owned by its
/// containing array or tuple.
#[derive(Debug)]
pub struct Params {
    pub params: Vec<Expr>,
}

/// A tuple: wraps exactly one parameter list.
#[derive(Debug)]
pub struct Tuple {
    pub params: Params,
}

/// An array: wraps exactly one parameter list.
#[derive(Debug)]
pub struct Array {
    pub params: Params,
}

/// A string literal's value, with the surrounding double quotes removed.
#[derive(Debug, Clone)]
pub struct StringLiteral {
    pub val: String,
}

/// A character literal's value.
#[derive(Debug, Clone, Copy, PartialEq, Eq, Structural)]
pub struct Char {
    pub val: char,
}

/// A binary operator: a pure tag carrying no data.
#[derive(Debug, Clone, Copy, PartialEq, Eq, Structural)]
pub enum Operator {
    Add(Add),
    Sub(Sub),
    Mul(Mul),
    Div(Div),
    Pow(Pow),
}

/// The addition operator marker.
#[derive(Debug, Clone, Copy, PartialEq, Eq, Structural)]
pub struct Add;

/// The subtraction operator marker.
#[derive(Debug, Clone, Copy, PartialEq, Eq, Structural)]
pub struct Sub;

/// The multiplication operator marker.
#[derive(Debug, Clone, Copy, PartialEq, Eq, Structural)]
pub struct Mul;

/// The division operator marker.
#[derive(Debug, Clone, Copy, PartialEq, Eq, Structural)]
pub struct Div;

/// The exponentiation operator marker.
#[derive(Debug, Clone, Copy, PartialEq, Eq, Structural)]
pub struct Pow;

/// A float literal.  The decoded 64-bit floating value is not a concern
/// of this crate; the literal's span text, validated to be of the
/// decimal shape, is kept for the consumer to realize.
#[derive(Debug, Clone, PartialEq, Eq)]
pub struct Float {
    pub text: String,
}

/// An integer literal, tagged by the radix of its source text; every
/// variant holds a signed 64-bit value.
#[derive(Debug, Clone, Copy, PartialEq, Eq, Structural)]
pub enum Integer {
    Dec(IntegerDec),
    Bin(IntegerBin),
    Oct(IntegerOct),
    Hex(IntegerHex),
}

impl Integer {
    /// The literal's value as a signed 64-bit integer, whatever the radix
    /// of its source text.
    pub fn as_i64(&self) -> (r: i64)
        ensures
            r == self.spec_i64(),
    {
        match self {
            Integer::Dec(i) => i.val,
            Integer::Bin(i) => i.val,
            Integer::Oct(i) => i.val,
            Integer::Hex(i) => i.val,
        }
    }

    /// The value held by whichever variant this is.
    pub open spec fn spec_i64(&self) -> i64 {
        match *self {
            Integer::Dec(i) => i.val,
            Integer::Bin(i) => i.val,
            Integer::Oct(i) => i.val,
            Integer::Hex(i) => i.val,
        }
    }
}

/// An integer literal written in decimal digits.
#[derive(Debug, Clone, Copy, PartialEq, Eq, Structural)]
pub struct IntegerDec {
    pub val: i64,
}

/// An integer literal written with a binary radix prefix.
#[derive(Debug, Clone, Copy, PartialEq, Eq, Structural)]
pub struct IntegerBin {
    pub val: i64,
}

/// An integer literal written with an octal radix prefix.
#[derive(Debug, Clone, Copy, PartialEq, Eq, Structural)]
pub struct IntegerOct {
    pub val: i64,
}

/// An integer literal written with a hexadecimal radix prefix.
#[derive(Debug, Clone, Copy, PartialEq, Eq, Structural)]
pub struct IntegerHex {
    pub val: i64,
}

} // verus!
