//! Ordered fields.
use crate::field::Field;
use vstd::prelude::*;
use vstd::std_specs::cmp::{PartialOrdIs, PartialOrdSpec};
use vstd::std_specs::ops::{AddSpec, MulSpec};

verus! {

/// A field with a total order that its operations respect.
///
/// The completeness that sets the real numbers apart from the other ordered fields is not
/// among the laws: no type whose values fit in memory has it.
pub trait RealField: Field + PartialOrd {
    /// Totality: any two elements compare, as `partial_cmp` reports, and two elements
    /// that are each at most the other are one element.
    proof fn order_is_total(a: Self, b: Self)
        requires
            a.is_element(),
            b.is_element(),
        ensures
            Self::obeys_partial_cmp_spec(),
            a.is_le(&b) || b.is_le(&a),
            a.is_le(&b) && b.is_le(&a) ==> a == b,
    ;

    /// Transitivity: where `a <= b` and `b <= c`, `a <= c`.
    proof fn order_is_transitive(a: Self, b: Self, c: Self)
        requires
            a.is_element(),
            b.is_element(),
            c.is_element(),
            a.is_le(&b),
            b.is_le(&c),
        ensures
            a.is_le(&c),
    ;

    /// Compatibility: adding an element to both sides keeps an inequality, and the product
    /// of two elements that are at least zero is at least zero.
    proof fn order_respects_the_operations(a: Self, b: Self, c: Self)
        requires
            a.is_element(),
            b.is_element(),
            c.is_element(),
        ensures
            a.is_le(&b) ==> a.add_spec(c).is_le(&b.add_spec(c)),
            Self::zero_spec().is_le(&a) && Self::zero_spec().is_le(&b) ==> Self::zero_spec().is_le(
                &a.mul_spec(b),
            ),
    ;
}

} // verus!
