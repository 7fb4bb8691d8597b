//! Operator capabilities: one trait for each operator that a type supports with a result
//! (or, for the in-place forms, a left operand) of its own type.
//!
//! The binary and unary operators are those of `std::ops`. What such an operator computes
//! is named by the specification traits of `vstd::std_specs::ops` (`add_spec`, `neg_spec`,
//! ...), and a capability over it adds nothing: a type has it exactly when the operator is
//! defined with the operand and result types named.
//!
//! The in-place operators and the identity elements are declared here as methods, each
//! with the specification functions that say when it may be called and what it leaves
//! behind. Overflow, division by zero and loss of precision stay what they are for the
//! type that implements the operator: the `_req` function of an operator says on which
//! operands it is defined, and nothing is promised outside it.
use std::ops::{Add, Div, Mul, Neg, Rem, Sub};
use vstd::prelude::*;

verus! {

/// Closed addition: `self + rhs` is defined and has the type of `self`.
pub trait ClosedAdd<Rhs = Self>: Add<Rhs, Output = Self> {

}

/// Closed addition with the right operand borrowed: `self + &rhs` is defined and has the
/// type of `self`.
pub trait ClosedAddRef<Rhs = Self>: for<'a> Add<&'a Rhs, Output = Self> {

}

/// Closed subtraction: `self - rhs` is defined and has the type of `self`.
pub trait ClosedSub<Rhs = Self>: Sub<Rhs, Output = Self> {

}

/// Closed subtraction with the right operand borrowed: `self - &rhs` is defined and has the
/// type of `self`.
pub trait ClosedSubRef<Rhs = Self>: for<'a> Sub<&'a Rhs, Output = Self> {

}

/// Closed multiplication: `self * rhs` is defined and has the type of `self`.
pub trait ClosedMul<Rhs = Self>: Mul<Rhs, Output = Self> {

}

/// Closed multiplication with the right operand borrowed: `self * &rhs` is defined and has the
/// type of `self`.
pub trait ClosedMulRef<Rhs = Self>: for<'a> Mul<&'a Rhs, Output = Self> {

}

/// Closed division: `self / rhs` is defined and has the type of `self`.
pub trait ClosedDiv<Rhs = Self>: Div<Rhs, Output = Self> {

}

/// Closed division with the right operand borrowed: `self / &rhs` is defined and has the
/// type of `self`.
pub trait ClosedDivRef<Rhs = Self>: for<'a> Div<&'a Rhs, Output = Self> {

}

/// Closed remainder: `self % rhs` is defined and has the type of `self`.
pub trait ClosedRem<Rhs = Self>: Rem<Rhs, Output = Self> {

}

/// Closed remainder with the right operand borrowed: `self % &rhs` is defined and has the
/// type of `self`.
pub trait ClosedRemRef<Rhs = Self>: for<'a> Rem<&'a Rhs, Output = Self> {

}

/// Closed negation: `-self` is defined and has the type of `self`.
pub trait ClosedNeg: Neg<Output = Self> {

}

/// Closed inversion: the multiplicative inverse of a value has the type of the value.
pub trait ClosedInv: Sized {
    /// Whether `self` has an inverse that `inv` can return.
    spec fn inv_req(self) -> bool;

    /// The multiplicative inverse of `self`.
    spec fn inv_spec(self) -> Self;

    /// Returns the multiplicative inverse of `self`.
    fn inv(self) -> (r: Self)
        requires
            self.inv_req(),
        ensures
            r == self.inv_spec(),
    ;
}

/// Closed in-place addition: `self += rhs`.
pub trait ClosedAddAssign<Rhs = Self>: Sized {
    /// Whether `self += rhs` is defined.
    spec fn add_assign_req(self, rhs: Rhs) -> bool;

    /// The value that `self += rhs` leaves in `self`.
    spec fn add_assign_spec(self, rhs: Rhs) -> Self;

    /// Performs `self += rhs`.
    fn add_assign(&mut self, rhs: Rhs)
        requires
            old(self).add_assign_req(rhs),
        ensures
            *final(self) == old(self).add_assign_spec(rhs),
    ;
}

/// Closed in-place addition with the right operand borrowed: `self += &rhs`.
pub trait ClosedAddAssignRef<Rhs = Self>: Sized {
    /// Whether `self += &rhs` is defined.
    spec fn add_assign_ref_req(self, rhs: Rhs) -> bool;

    /// The value that `self += &rhs` leaves in `self`.
    spec fn add_assign_ref_spec(self, rhs: Rhs) -> Self;

    /// Performs `self += &rhs`.
    fn add_assign_ref(&mut self, rhs: &Rhs)
        requires
            old(self).add_assign_ref_req(*rhs),
        ensures
            *final(self) == old(self).add_assign_ref_spec(*rhs),
    ;
}

/// Closed in-place subtraction: `self -= rhs`.
pub trait ClosedSubAssign<Rhs = Self>: Sized {
    /// Whether `self -= rhs` is defined.
    spec fn sub_assign_req(self, rhs: Rhs) -> bool;

    /// The value that `self -= rhs` leaves in `self`.
    spec fn sub_assign_spec(self, rhs: Rhs) -> Self;

    /// Performs `self -= rhs`.
    fn sub_assign(&mut self, rhs: Rhs)
        requires
            old(self).sub_assign_req(rhs),
        ensures
            *final(self) == old(self).sub_assign_spec(rhs),
    ;
}

/// Closed in-place subtraction with the right operand borrowed: `self -= &rhs`.
pub trait ClosedSubAssignRef<Rhs = Self>: Sized {
    /// Whether `self -= &rhs` is defined.
    spec fn sub_assign_ref_req(self, rhs: Rhs) -> bool;

    /// The value that `self -= &rhs` leaves in `self`.
    spec fn sub_assign_ref_spec(self, rhs: Rhs) -> Self;

    /// Performs `self -= &rhs`.
    fn sub_assign_ref(&mut self, rhs: &Rhs)
        requires
            old(self).sub_assign_ref_req(*rhs),
        ensures
            *final(self) == old(self).sub_assign_ref_spec(*rhs),
    ;
}

/// Closed in-place multiplication: `self *= rhs`.
pub trait ClosedMulAssign<Rhs = Self>: Sized {
    /// Whether `self *= rhs` is defined.
    spec fn mul_assign_req(self, rhs: Rhs) -> bool;

    /// The value that `self *= rhs` leaves in `self`.
    spec fn mul_assign_spec(self, rhs: Rhs) -> Self;

    /// Performs `self *= rhs`.
    fn mul_assign(&mut self, rhs: Rhs)
        requires
            old(self).mul_assign_req(rhs),
        ensures
            *final(self) == old(self).mul_assign_spec(rhs),
    ;
}

/// Closed in-place multiplication with the right operand borrowed: `self *= &rhs`.
pub trait ClosedMulAssignRef<Rhs = Self>: Sized {
    /// Whether `self *= &rhs` is defined.
    spec fn mul_assign_ref_req(self, rhs: Rhs) -> bool;

    /// The value that `self *= &rhs` leaves in `self`.
    spec fn mul_assign_ref_spec(self, rhs: Rhs) -> Self;

    /// Performs `self *= &rhs`.
    fn mul_assign_ref(&mut self, rhs: &Rhs)
        requires
            old(self).mul_assign_ref_req(*rhs),
        ensures
            *final(self) == old(self).mul_assign_ref_spec(*rhs),
    ;
}

/// Closed in-place division: `self /= rhs`.
pub trait ClosedDivAssign<Rhs = Self>: Sized {
    /// Whether `self /= rhs` is defined.
    spec fn div_assign_req(self, rhs: Rhs) -> bool;

    /// The value that `self /= rhs` leaves in `self`.
    spec fn div_assign_spec(self, rhs: Rhs) -> Self;

    /// Performs `self /= rhs`.
    fn div_assign(&mut self, rhs: Rhs)
        requires
            old(self).div_assign_req(rhs),
        ensures
            *final(self) == old(self).div_assign_spec(rhs),
    ;
}

/// Closed in-place division with the right operand borrowed: `self /= &rhs`.
pub trait ClosedDivAssignRef<Rhs = Self>: Sized {
    /// Whether `self /= &rhs` is defined.
    spec fn div_assign_ref_req(self, rhs: Rhs) -> bool;

    /// The value that `self /= &rhs` leaves in `self`.
    spec fn div_assign_ref_spec(self, rhs: Rhs) -> Self;

    /// Performs `self /= &rhs`.
    fn div_assign_ref(&mut self, rhs: &Rhs)
        requires
            old(self).div_assign_ref_req(*rhs),
        ensures
            *final(self) == old(self).div_assign_ref_spec(*rhs),
    ;
}

/// Closed in-place remainder: `self %= rhs`.
pub trait ClosedRemAssign<Rhs = Self>: Sized {
    /// Whether `self %= rhs` is defined.
    spec fn rem_assign_req(self, rhs: Rhs) -> bool;

    /// The value that `self %= rhs` leaves in `self`.
    spec fn rem_assign_spec(self, rhs: Rhs) -> Self;

    /// Performs `self %= rhs`.
    fn rem_assign(&mut self, rhs: Rhs)
        requires
            old(self).rem_assign_req(rhs),
        ensures
            *final(self) == old(self).rem_assign_spec(rhs),
    ;
}

/// Closed in-place remainder with the right operand borrowed: `self %= &rhs`.
pub trait ClosedRemAssignRef<Rhs = Self>: Sized {
    /// Whether `self %= &rhs` is defined.
    spec fn rem_assign_ref_req(self, rhs: Rhs) -> bool;

    /// The value that `self %= &rhs` leaves in `self`.
    spec fn rem_assign_ref_spec(self, rhs: Rhs) -> Self;

    /// Performs `self %= &rhs`.
    fn rem_assign_ref(&mut self, rhs: &Rhs)
        requires
            old(self).rem_assign_ref_req(*rhs),
        ensures
            *final(self) == old(self).rem_assign_ref_spec(*rhs),
    ;
}

/// A closed zero: the type has an additive identity value of its own type.
pub trait ClosedZero: Sized + Add<Self, Output = Self> {
    /// The additive identity.
    spec fn zero_spec() -> Self;

    /// Returns the additive identity.
    fn zero() -> (z: Self)
        ensures
            z == Self::zero_spec(),
    ;

    /// Tells whether `self` is the additive identity.
    fn is_zero(&self) -> (b: bool)
        ensures
            b == (*self == Self::zero_spec()),
    ;
}

/// A closed one: the type has a multiplicative identity value of its own type.
pub trait ClosedOne: Sized + Mul<Self, Output = Self> {
    /// The multiplicative identity.
    spec fn one_spec() -> Self;

    /// Returns the multiplicative identity.
    fn one() -> (u: Self)
        ensures
            u == Self::one_spec(),
    ;
}

} // verus!
