//! Fields, and the finite among them.
use crate::characteristic::{has_order, is_characteristic};
use crate::ops::{ClosedDiv, ClosedDivAssign};
use crate::ring::EuclideanDomain;
use vstd::arithmetic::power::pow;
use vstd::prelude::*;
use vstd::std_specs::ops::{DivSpec, MulSpec};

verus! {

/// A Euclidean domain in which every element other than zero divides every element.
pub trait Field: EuclideanDomain + ClosedDiv + ClosedDivAssign {
    /// Division: for `b` other than zero the quotient `a / b` is defined, is what `/`
    /// returns, and is an element whose product with `b` is `a`; `/=` leaves the same
    /// quotient.
    proof fn division_is_inverse_of_multiplication(a: Self, b: Self)
        requires
            a.is_element(),
            b.is_element(),
            b != Self::zero_spec(),
        ensures
            Self::obeys_div_spec(),
            a.div_req(b),
            a.div_spec(b).is_element(),
            a.div_spec(b).mul_spec(b) == a,
            a.div_assign_req(b),
            a.div_assign_spec(b) == a.div_spec(b),
    ;
}

/// A field with finitely many elements.
pub trait FiniteField: Field {
    /// Returns the characteristic of the field: the least positive `n` with `n · 1 = 0`.
    fn characteristic() -> (p: u64)
        ensures
            is_characteristic::<Self>(p as nat),
    ;

    /// Returns the order of the field: the number of its elements.
    fn order() -> (q: u64)
        ensures
            has_order::<Self>(q as nat),
    ;

    /// The field has a characteristic, and its order is a power of it with an exponent of
    /// at least one: the degree of the field over its prime subfield.
    proof fn order_is_power_of_characteristic()
        ensures
            exists|p: nat, n: nat|
                is_characteristic::<Self>(p) && n >= 1 && #[trigger] has_order::<Self>(
                    pow(p as int, n) as nat,
                ),
    ;
}

} // verus!
