//! What holds of every element of a structure, stated for any type that has the
//! structure.
use crate::field::Field;
use crate::group::AdditiveAbelianGroup;
use crate::ring::Ring;
use vstd::prelude::*;
use vstd::std_specs::ops::{AddSpec, MulSpec, NegSpec};

verus! {

/// In an additive abelian group, addition is associative and commutative, and every
/// element added to its negative gives zero.
pub proof fn lemma_additive_abelian_group_laws<G: AdditiveAbelianGroup>(a: G, b: G, c: G)
    requires
        a.is_element(),
        b.is_element(),
        c.is_element(),
    ensures
        a.add_spec(b).add_spec(c) == a.add_spec(b.add_spec(c)),
        a.add_spec(b) == b.add_spec(a),
        a.add_spec(a.neg_spec()) == G::zero_spec(),
{
    G::addition_is_associative(a, b, c);
    G::addition_is_commutative(a, b);
    G::negation_is_additive_inverse(a);
}

/// In a ring, multiplication distributes over addition from the left and from the right.
pub proof fn lemma_ring_distributivity<R: Ring>(a: R, b: R, c: R)
    requires
        a.is_element(),
        b.is_element(),
        c.is_element(),
    ensures
        a.mul_spec(b.add_spec(c)) == a.mul_spec(b).add_spec(a.mul_spec(c)),
        a.add_spec(b).mul_spec(c) == a.mul_spec(c).add_spec(b.mul_spec(c)),
{
    R::multiplication_distributes_over_addition(a, b, c);
}

/// In a field, an element is its Euclidean quotient by a divisor other than zero, times
/// the divisor, plus its Euclidean remainder.
pub proof fn lemma_field_euclidean_division<F: Field>(a: F, b: F)
    requires
        a.is_element(),
        b.is_element(),
        b != F::zero_spec(),
    ensures
        a == b.mul_spec(a.div_euclid_spec(b)).add_spec(a.rem_euclid_spec(b)),
{
    F::division_with_remainder(a, b);
}

} // verus!
