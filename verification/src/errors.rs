//! The two-tier error taxonomy of the conversion protocol.
//!
//! `NoMatch` is not an error: it is the control signal that lets an
//! ordered-choice caller, an optional field, or a list builder retry a
//! sibling alternative, and it is only ever returned before anything was
//! consumed.  A [`FatalError`] is a structural failure after a rule tag
//! already matched - a literal whose text fails decoding, or a required
//! child missing - and it propagates outward without any recovery.

use vstd::prelude::*;

verus! {

/// Why a literal's text failed to decode.
#[derive(Debug, Clone, Copy, PartialEq, Eq, Structural)]
pub enum DecodeError {
    /// The text was empty.
    Empty,
    /// A character was not a digit of the requested radix, or nothing
    /// followed a leading sign.
    InvalidDigit,
    /// The value exceeds the largest representable 64-bit signed integer.
    PosOverflow,
    /// The value is below the smallest representable 64-bit signed integer.
    NegOverflow,
    /// The text was too short to carry the fixed two-character radix prefix.
    MissingPrefix,
    /// A character literal held no character between its quotes.
    EmptyChar,
    /// A float literal's text was not of the decimal shape.
    BadFloat,
}

/// What went wrong after a builder had already committed to a rule tag.
#[derive(Debug, Clone, PartialEq, Eq, Structural)]
pub enum FaultKind {
    /// A literal's text could not be decoded.
    Literal(DecodeError),
    /// A required child was missing or of the wrong shape.
    MissingChild,
}

/// A structural conversion failure: the offending span and the reason.
#[derive(Debug, Clone)]
pub struct FatalError {
    pub span: String,
    pub kind: FaultKind,
}

/// Outcome of an attempted build that did not return a node: either the
/// next pending node's tag was not the expected one (`NoMatch`, cursor
/// untouched), or the tag matched and conversion then failed (`Fatal`).
#[derive(Debug, Clone)]
pub enum ConversionError {
    NoMatch,
    Fatal(FatalError),
}

} // verus!
