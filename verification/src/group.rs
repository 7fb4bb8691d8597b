//! Structures with one operation: magmas, semigroups, monoids and groups, written
//! additively and multiplicatively.
//!
//! Each structure is the conjunction of the capabilities after its name, and carries the
//! laws that make the conjunction the structure, as proof functions over the specification
//! of the operators. A verified implementation proves them. An implementation that no
//! verifier reads asserts them, and what is proved of the structure holds of such a type
//! as far as the assertion is true.
//!
//! The laws speak of the elements of the carrier set. A type may have values that
//! represent no element (a residue that is not reduced, say): of those nothing is
//! claimed.
use crate::markers::{
    AssociativeAddition, AssociativeMultiplication, CommutativeAddition, CommutativeMultiplication,
};
use crate::ops::{
    ClosedAdd, ClosedAddAssign, ClosedInv, ClosedMul, ClosedMulAssign, ClosedNeg, ClosedOne,
    ClosedSubAssign, ClosedZero,
};
use std::ops::Sub;
use vstd::prelude::*;
use vstd::std_specs::ops::{AddSpec, MulSpec, NegSpec};

verus! {

/// The carrier set of an algebraic structure: values that can be copied and compared, of
/// which `is_element` picks those that stand for an element.
pub trait CarrierSet: Sized + Clone + PartialEq {
    /// Whether `self` stands for an element of the set.
    spec fn is_element(self) -> bool;
}

/// A set with an addition under which it is closed.
pub trait AdditiveMagma: CarrierSet + ClosedAdd + ClosedAddAssign {
    /// Closure: the sum of two elements is defined, is what `+` returns, and is an
    /// element; `+=` leaves the same sum.
    proof fn addition_is_closed(a: Self, b: Self)
        requires
            a.is_element(),
            b.is_element(),
        ensures
            Self::obeys_add_spec(),
            a.add_req(b),
            a.add_spec(b).is_element(),
            a.add_assign_req(b),
            a.add_assign_spec(b) == a.add_spec(b),
    ;
}

/// A set with a multiplication under which it is closed.
pub trait MultiplicativeMagma: CarrierSet + ClosedMul + ClosedMulAssign {
    /// Closure: the product of two elements is defined, is what `*` returns, and is an
    /// element; `*=` leaves the same product.
    proof fn multiplication_is_closed(a: Self, b: Self)
        requires
            a.is_element(),
            b.is_element(),
        ensures
            Self::obeys_mul_spec(),
            a.mul_req(b),
            a.mul_spec(b).is_element(),
            a.mul_assign_req(b),
            a.mul_assign_spec(b) == a.mul_spec(b),
    ;
}

/// An additive magma whose addition is associative.
pub trait AdditiveSemigroup: AdditiveMagma + AssociativeAddition {
    /// Associativity: `(a + b) + c = a + (b + c)`.
    proof fn addition_is_associative(a: Self, b: Self, c: Self)
        requires
            a.is_element(),
            b.is_element(),
            c.is_element(),
        ensures
            a.add_spec(b).add_spec(c) == a.add_spec(b.add_spec(c)),
    ;
}

/// A multiplicative magma whose multiplication is associative.
pub trait MultiplicativeSemigroup: MultiplicativeMagma + AssociativeMultiplication {
    /// Associativity: `(a * b) * c = a * (b * c)`.
    proof fn multiplication_is_associative(a: Self, b: Self, c: Self)
        requires
            a.is_element(),
            b.is_element(),
            c.is_element(),
        ensures
            a.mul_spec(b).mul_spec(c) == a.mul_spec(b.mul_spec(c)),
    ;
}

/// An additive semigroup with an identity element, zero.
pub trait AdditiveMonoid: AdditiveSemigroup + ClosedZero {
    /// Identity: zero is an element, and `a + 0 = 0 + a = a` for every element `a`.
    proof fn zero_is_additive_identity(a: Self)
        ensures
            Self::zero_spec().is_element(),
            a.is_element() ==> a.add_spec(Self::zero_spec()) == a,
            a.is_element() ==> Self::zero_spec().add_spec(a) == a,
    ;
}

/// A multiplicative semigroup with an identity element, one.
pub trait MultiplicativeMonoid: MultiplicativeSemigroup + ClosedOne {
    /// Identity: one is an element, and `a * 1 = 1 * a = a` for every element `a`.
    proof fn one_is_multiplicative_identity(a: Self)
        ensures
            Self::one_spec().is_element(),
            a.is_element() ==> a.mul_spec(Self::one_spec()) == a,
            a.is_element() ==> Self::one_spec().mul_spec(a) == a,
    ;
}

/// An additive monoid in which every element has a negative, and in which one element can
/// be subtracted from another.
///
/// The result type of `-` is left open, as the capability leaves it; the law of
/// subtraction is stated of the in-place form, whose result is an element.
pub trait AdditiveGroup: AdditiveMonoid + ClosedNeg + Sub + ClosedSubAssign {
    /// Inverse: the negative of an element is defined, is what `-a` returns, and is an
    /// element, and `a + (-a) = (-a) + a = 0`.
    proof fn negation_is_additive_inverse(a: Self)
        requires
            a.is_element(),
        ensures
            Self::obeys_neg_spec(),
            a.neg_req(),
            a.neg_spec().is_element(),
            a.add_spec(a.neg_spec()) == Self::zero_spec(),
            a.neg_spec().add_spec(a) == Self::zero_spec(),
    ;

    /// Subtraction: `a -= b` is defined and leaves `a + (-b)`.
    proof fn subtraction_adds_the_negative(a: Self, b: Self)
        requires
            a.is_element(),
            b.is_element(),
        ensures
            a.sub_assign_req(b),
            a.sub_assign_spec(b) == a.add_spec(b.neg_spec()),
    ;
}

/// A multiplicative monoid in which every element has an inverse.
pub trait MultiplicativeGroup: MultiplicativeMonoid + ClosedInv {
    /// Inverse: the inverse of an element is defined and is an element, and
    /// `a * a⁻¹ = a⁻¹ * a = 1`.
    proof fn inversion_is_multiplicative_inverse(a: Self)
        requires
            a.is_element(),
        ensures
            a.inv_req(),
            a.inv_spec().is_element(),
            a.mul_spec(a.inv_spec()) == Self::one_spec(),
            a.inv_spec().mul_spec(a) == Self::one_spec(),
    ;
}

/// An additive group whose addition commutes.
pub trait AdditiveAbelianGroup: AdditiveGroup + CommutativeAddition {
    /// Commutativity: `a + b = b + a`.
    proof fn addition_is_commutative(a: Self, b: Self)
        requires
            a.is_element(),
            b.is_element(),
        ensures
            a.add_spec(b) == b.add_spec(a),
    ;
}

/// A multiplicative group whose multiplication commutes.
pub trait MultiplicativeAbelianGroup: MultiplicativeGroup + CommutativeMultiplication {
    /// Commutativity: `a * b = b * a`.
    proof fn multiplication_is_commutative(a: Self, b: Self)
        requires
            a.is_element(),
            b.is_element(),
        ensures
            a.mul_spec(b) == b.mul_spec(a),
    ;
}

} // verus!
