//! Tags by which the author of a type asserts an algebraic law of its operators.
//!
//! A tag has no members. It states nothing that a verifier could hold an implementation
//! to: the laws are stated, and proved by verified implementations, in the structures
//! that combine a tag with the operators it speaks of.
use vstd::prelude::*;

verus! {

/// Asserts that addition commutes: `a + b = b + a`.
pub trait CommutativeAddition {

}

/// Asserts that multiplication commutes: `a * b = b * a`.
pub trait CommutativeMultiplication {

}

/// Asserts that addition is associative: `(a + b) + c = a + (b + c)`.
pub trait AssociativeAddition {

}

/// Asserts that multiplication is associative: `(a * b) * c = a * (b * c)`.
pub trait AssociativeMultiplication {

}

/// Asserts that multiplication distributes over addition on both sides:
/// `a * (b + c) = a * b + a * c` and `(a + b) * c = a * c + b * c`.
pub trait DistributiveAddition {

}

} // verus!
