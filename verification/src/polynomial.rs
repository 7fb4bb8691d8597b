//! Polynomials in one indeterminate over a field.
use crate::euclid::{ClosedDivEuclid, ClosedRemEuclid};
use crate::ops::{ClosedAdd, ClosedMul};
use vstd::prelude::*;
use vstd::std_specs::ops::{AddSpec, MulSpec};

verus! {

/// A polynomial `a_n X^n + ... + a_1 X + a_0` with coefficients in a field: values that
/// can be copied, compared, added and multiplied, and divided with remainder. How the
/// coefficients are stored is left to the type.
pub trait Polynomial: Clone + PartialEq + ClosedAdd + ClosedMul + ClosedDivEuclid + ClosedRemEuclid {
    /// The number of coefficients up to the leading one: the degree plus one, and zero for
    /// the zero polynomial.
    spec fn coefficient_count(self) -> nat;

    /// Division with remainder: where the quotient `q` and the remainder `r` of `a` by `b`
    /// are defined, the product `b * q` and its sum with `r` are defined and are what `*`
    /// and `+` return, `a = b * q + r`, and `r` has fewer coefficients than `b`.
    proof fn polynomial_division_with_remainder(a: Self, b: Self)
        requires
            a.div_euclid_req(b),
            a.rem_euclid_req(b),
        ensures
            Self::obeys_mul_spec(),
            Self::obeys_add_spec(),
            b.mul_req(a.div_euclid_spec(b)),
            b.mul_spec(a.div_euclid_spec(b)).add_req(a.rem_euclid_spec(b)),
            a == b.mul_spec(a.div_euclid_spec(b)).add_spec(a.rem_euclid_spec(b)),
            a.rem_euclid_spec(b).coefficient_count() < b.coefficient_count(),
    ;
}

} // verus!
