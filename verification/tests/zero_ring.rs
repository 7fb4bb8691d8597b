//! The ring with one element, in which zero is one: a ring and a commutative ring like
//! any other, and no integral domain.
//!
//! The specification functions and laws of a capability are for a verifier; nothing runs
//! them, and they stand here as bodies that are never entered.

use abstract_algebra::{
    AdditiveAbelianGroup, AdditiveGroup, AdditiveMagma, AdditiveMonoid, AdditiveSemigroup,
    AssociativeAddition, AssociativeMultiplication, CarrierSet, ClosedAdd, ClosedAddAssign,
    ClosedMul, ClosedMulAssign, ClosedNeg, ClosedOne, ClosedSubAssign, ClosedZero,
    CommutativeAddition, CommutativeMultiplication, CommutativeRing, DistributiveAddition,
    MultiplicativeMagma, MultiplicativeMonoid, MultiplicativeSemigroup, Ring, Semiring,
};
use std::ops::{Add, Mul, Neg, Sub};

/// The only element of the ring with one element.
#[derive(Clone, Copy, Debug, PartialEq)]
struct Only;

impl Add for Only {
    type Output = Only;

    fn add(self, _rhs: Only) -> Only {
        Only
    }
}

impl Sub for Only {
    type Output = Only;

    fn sub(self, _rhs: Only) -> Only {
        Only
    }
}

impl Mul for Only {
    type Output = Only;

    fn mul(self, _rhs: Only) -> Only {
        Only
    }
}

impl Neg for Only {
    type Output = Only;

    fn neg(self) -> Only {
        Only
    }
}

impl ClosedAdd for Only {}

impl ClosedMul for Only {}

impl ClosedNeg for Only {}

impl ClosedAddAssign for Only {
    fn add_assign_req(self, _rhs: Only) -> bool {
        unreachable!()
    }

    fn add_assign_spec(self, _rhs: Only) -> Only {
        unreachable!()
    }

    fn add_assign(&mut self, _rhs: Only) {}
}

impl ClosedSubAssign for Only {
    fn sub_assign_req(self, _rhs: Only) -> bool {
        unreachable!()
    }

    fn sub_assign_spec(self, _rhs: Only) -> Only {
        unreachable!()
    }

    fn sub_assign(&mut self, _rhs: Only) {}
}

impl ClosedMulAssign for Only {
    fn mul_assign_req(self, _rhs: Only) -> bool {
        unreachable!()
    }

    fn mul_assign_spec(self, _rhs: Only) -> Only {
        unreachable!()
    }

    fn mul_assign(&mut self, _rhs: Only) {}
}

impl ClosedZero for Only {
    fn zero_spec() -> Only {
        unreachable!()
    }

    fn zero() -> Only {
        Only
    }

    fn is_zero(&self) -> bool {
        true
    }
}

impl ClosedOne for Only {
    fn one_spec() -> Only {
        unreachable!()
    }

    fn one() -> Only {
        Only
    }
}

impl AssociativeAddition for Only {}

impl AssociativeMultiplication for Only {}

impl CommutativeAddition for Only {}

impl CommutativeMultiplication for Only {}

impl DistributiveAddition for Only {}

impl CarrierSet for Only {
    fn is_element(self) -> bool {
        unreachable!()
    }
}

impl AdditiveMagma for Only {
    fn addition_is_closed(_a: Only, _b: Only) {}
}

impl MultiplicativeMagma for Only {
    fn multiplication_is_closed(_a: Only, _b: Only) {}
}

impl AdditiveSemigroup for Only {
    fn addition_is_associative(_a: Only, _b: Only, _c: Only) {}
}

impl MultiplicativeSemigroup for Only {
    fn multiplication_is_associative(_a: Only, _b: Only, _c: Only) {}
}

impl AdditiveMonoid for Only {
    fn zero_is_additive_identity(_a: Only) {}
}

impl MultiplicativeMonoid for Only {
    fn one_is_multiplicative_identity(_a: Only) {}
}

impl AdditiveGroup for Only {
    fn negation_is_additive_inverse(_a: Only) {}

    fn subtraction_adds_the_negative(_a: Only, _b: Only) {}
}

impl AdditiveAbelianGroup for Only {
    fn addition_is_commutative(_a: Only, _b: Only) {}
}

impl Ring for Only {
    fn multiplication_distributes_over_addition(_a: Only, _b: Only, _c: Only) {}
}

impl CommutativeRing for Only {
    fn ring_multiplication_is_commutative(_a: Only, _b: Only) {}
}

fn zero_and_one<R: Ring>() -> (R, R) {
    (R::zero(), R::one())
}

fn twice_the_product<R: CommutativeRing + Copy>(a: R, b: R) -> R {
    a * b + b * a
}

fn one_plus_one<S: Semiring>() -> S {
    S::one() + S::one()
}

#[test]
fn zero_is_one_in_the_ring_with_one_element() {
    let (zero, one) = zero_and_one::<Only>();
    assert_eq!(zero, one);
    assert!(ClosedZero::is_zero(&one));
}

#[test]
fn ring_with_one_element_obeys_the_ring_laws() {
    let a = Only;
    assert_eq!((a + a) + a, a + (a + a));
    assert_eq!(a + (-a), Only::zero());
    assert_eq!(a * (a + a), a * a + a * a);
    assert_eq!((a + a) * a, a * a + a * a);
    assert_eq!(a * Only::one(), a);
    assert_eq!(a - a, Only::zero());
}

#[test]
fn ring_with_one_element_is_usable_through_its_bounds() {
    assert_eq!(twice_the_product(Only, Only), Only);
    assert_eq!(one_plus_one::<Only>(), Only);
    let mut a = Only;
    a.add_assign(Only);
    a.sub_assign(Only);
    a.mul_assign(Only);
    assert_eq!(a, Only);
}
