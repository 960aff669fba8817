//! A build-time transformer that gives a two-case enumerated type boolean-like
//! semantics.
//!
//! The input is the structural representation of a type declaration: its name,
//! its ordered cases, and the annotations attached to the declaration and to
//! each case. The transformer validates the shape of the declaration (it must
//! be a sum type with exactly two cases), honors an optional `into_false`
//! marker on one case, and produces the declarations to emit: the original
//! declaration with the marker stripped, a negation operation that swaps the
//! two cases, and, when a case was marked as false, a pair of conversions
//! between the type and a primitive boolean.
//!
//! The meaning of the emitted operations is captured by spec functions and
//! proved: negation is involutive and exhaustive over the two cases, and the
//! conversions agree with negation.

pub mod decl;
pub mod semantics;
pub mod transform;
