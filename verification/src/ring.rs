//! Structures with two operations, from semirings to Euclidean domains.
use crate::euclid::{ClosedDivEuclid, ClosedRemEuclid};
use crate::group::{AdditiveAbelianGroup, AdditiveMonoid, MultiplicativeMonoid};
use crate::markers::{CommutativeAddition, CommutativeMultiplication, DistributiveAddition};
use vstd::prelude::*;
use vstd::std_specs::ops::{AddSpec, MulSpec};

verus! {

/// A commutative additive monoid and a multiplicative monoid on one set, with
/// multiplication distributing over addition.
///
/// Every type with the four capabilities is a semiring: nothing is left to declare.
/// Commutativity and distributivity are what the two tags assert of it.
pub trait Semiring:
    AdditiveMonoid + CommutativeAddition + MultiplicativeMonoid + DistributiveAddition
{

}

impl<T> Semiring for T where
    T: AdditiveMonoid + CommutativeAddition + MultiplicativeMonoid + DistributiveAddition,
{

}

/// An additive abelian group and a multiplicative monoid on one set, with multiplication
/// distributing over addition.
pub trait Ring: AdditiveAbelianGroup + MultiplicativeMonoid + DistributiveAddition {
    /// Distributivity on the left and on the right: `a * (b + c) = a * b + a * c` and
    /// `(a + b) * c = a * c + b * c`.
    proof fn multiplication_distributes_over_addition(a: Self, b: Self, c: Self)
        requires
            a.is_element(),
            b.is_element(),
            c.is_element(),
        ensures
            a.mul_spec(b.add_spec(c)) == a.mul_spec(b).add_spec(a.mul_spec(c)),
            a.add_spec(b).mul_spec(c) == a.mul_spec(c).add_spec(b.mul_spec(c)),
    ;
}

/// A ring whose multiplication commutes.
pub trait CommutativeRing: Ring + CommutativeMultiplication {
    /// Commutativity: `a * b = b * a`.
    proof fn ring_multiplication_is_commutative(a: Self, b: Self)
        requires
            a.is_element(),
            b.is_element(),
        ensures
            a.mul_spec(b) == b.mul_spec(a),
    ;
}

/// A ring in which zero differs from one and no product of nonzero elements is zero.
pub trait IntegralDomain: Ring {
    /// Zero is not one.
    proof fn zero_is_not_one()
        ensures
            Self::zero_spec() != Self::one_spec(),
    ;

    /// No zero divisors: where `a * b = 0`, `a` or `b` is zero.
    proof fn no_zero_divisors(a: Self, b: Self)
        requires
            a.is_element(),
            b.is_element(),
            a.mul_spec(b) == Self::zero_spec(),
        ensures
            a == Self::zero_spec() || b == Self::zero_spec(),
    ;
}

/// An integral domain in which every nonzero element that is not a unit is a product of
/// irreducible elements, in one way up to order and associates.
///
/// The trait has no member: that the factorization exists and is unique is what its
/// author asserts.
pub trait UniqueFactorizationDomain: IntegralDomain {

}

/// A unique factorization domain in which every ideal is generated by one element.
///
/// The trait has no member: that every ideal is principal is what its author asserts.
pub trait PrincipalIdealDomain: UniqueFactorizationDomain {

}

/// A principal ideal domain with division with remainder, measured by a Euclidean
/// function.
pub trait EuclideanDomain: PrincipalIdealDomain + ClosedDivEuclid + ClosedRemEuclid {
    /// The Euclidean function: the size by which a remainder is smaller than the divisor.
    spec fn euclidean_size(self) -> nat;

    /// Division with remainder: for `b` other than zero, the quotient `q` and the remainder
    /// `r` of `a` by `b` are defined and are elements, `a = b * q + r`, and `r` is zero or
    /// smaller than `b`.
    proof fn division_with_remainder(a: Self, b: Self)
        requires
            a.is_element(),
            b.is_element(),
            b != Self::zero_spec(),
        ensures
            a.div_euclid_req(b),
            a.rem_euclid_req(b),
            a.div_euclid_spec(b).is_element(),
            a.rem_euclid_spec(b).is_element(),
            a == b.mul_spec(a.div_euclid_spec(b)).add_spec(a.rem_euclid_spec(b)),
            a.rem_euclid_spec(b) == Self::zero_spec() || a.rem_euclid_spec(b).euclidean_size()
                < b.euclidean_size(),
    ;
}

} // verus!
