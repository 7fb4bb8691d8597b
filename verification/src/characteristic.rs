//! The characteristic of a ring and the order of a finite structure, and what the laws of
//! an integral domain and of a finite field make of them.
use crate::field::FiniteField;
use crate::group::CarrierSet;
use crate::ring::{IntegralDomain, Ring};
use vstd::arithmetic::power::pow;
use vstd::prelude::*;
use vstd::std_specs::ops::{AddSpec, MulSpec, NegSpec};

verus! {

/// The elements of the carrier set `S`.
pub open spec fn elements<S: CarrierSet>() -> Set<S> {
    Set::new(|a: S| a.is_element())
}

/// Whether `S` has exactly `q` elements.
pub open spec fn has_order<S: CarrierSet>(q: nat) -> bool {
    elements::<S>().finite() && elements::<S>().len() == q
}

/// The sum of `n` copies of one: `n · 1`.
pub open spec fn multiple_of_one<R: Ring>(n: nat) -> R
    decreases n,
{
    if n == 0 {
        R::zero_spec()
    } else {
        multiple_of_one::<R>((n - 1) as nat).add_spec(R::one_spec())
    }
}

/// Whether `p` is the characteristic of `R`: the least positive `n` with `n · 1 = 0`.
pub open spec fn is_characteristic<R: Ring>(p: nat) -> bool {
    &&& p > 0
    &&& multiple_of_one::<R>(p) == R::zero_spec()
    &&& forall|n: nat| 0 < n < p ==> #[trigger] multiple_of_one::<R>(n) != R::zero_spec()
}

/// Whether `n` is a prime number.
pub open spec fn is_prime(n: nat) -> bool {
    &&& n >= 2
    &&& forall|d: nat| 1 < d < n ==> #[trigger] (n % d) != 0
}

/// In a ring, the product of an element with zero is zero.
proof fn lemma_product_with_zero<R: Ring>(a: R)
    requires
        a.is_element(),
    ensures
        a.mul_spec(R::zero_spec()) == R::zero_spec(),
{
    let zero = R::zero_spec();
    let x = a.mul_spec(zero);
    R::zero_is_additive_identity(a);
    R::zero_is_additive_identity(zero);
    R::multiplication_is_closed(a, zero);
    R::multiplication_distributes_over_addition(a, zero, zero);
    assert(x == x.add_spec(x));
    R::negation_is_additive_inverse(x);
    R::addition_is_associative(x, x, x.neg_spec());
    R::zero_is_additive_identity(x);
}

/// Every multiple of one is an element.
proof fn lemma_multiple_of_one_is_element<R: Ring>(n: nat)
    ensures
        multiple_of_one::<R>(n).is_element(),
    decreases n,
{
    R::zero_is_additive_identity(R::zero_spec());
    R::one_is_multiplicative_identity(R::one_spec());
    if n > 0 {
        lemma_multiple_of_one_is_element::<R>((n - 1) as nat);
        R::addition_is_closed(multiple_of_one::<R>((n - 1) as nat), R::one_spec());
    }
}

/// Multiples of one add as their factors do: `m · 1 + n · 1 = (m + n) · 1`.
proof fn lemma_multiples_of_one_add<R: Ring>(m: nat, n: nat)
    ensures
        multiple_of_one::<R>(m).add_spec(multiple_of_one::<R>(n)) == multiple_of_one::<R>(m + n),
    decreases n,
{
    let one = R::one_spec();
    let mx = multiple_of_one::<R>(m);
    lemma_multiple_of_one_is_element::<R>(m);
    R::one_is_multiplicative_identity(one);
    if n == 0 {
        R::zero_is_additive_identity(mx);
    } else {
        let k = (n - 1) as nat;
        let kx = multiple_of_one::<R>(k);
        lemma_multiple_of_one_is_element::<R>(k);
        lemma_multiples_of_one_add::<R>(m, k);
        R::addition_is_associative(mx, kx, one);
        assert(multiple_of_one::<R>(m + n) == multiple_of_one::<R>(m + k).add_spec(one));
    }
}

/// Multiples of one multiply as their factors do: `(m · 1) * (n · 1) = (m * n) · 1`.
proof fn lemma_multiples_of_one_multiply<R: Ring>(m: nat, n: nat)
    ensures
        multiple_of_one::<R>(m).mul_spec(multiple_of_one::<R>(n)) == multiple_of_one::<R>(m * n),
    decreases n,
{
    let one = R::one_spec();
    let mx = multiple_of_one::<R>(m);
    lemma_multiple_of_one_is_element::<R>(m);
    R::one_is_multiplicative_identity(mx);
    if n == 0 {
        lemma_product_with_zero::<R>(mx);
        assert(m * n == 0) by (nonlinear_arith)
            requires
                n == 0,
        ;
    } else {
        let k = (n - 1) as nat;
        let kx = multiple_of_one::<R>(k);
        lemma_multiple_of_one_is_element::<R>(k);
        lemma_multiples_of_one_multiply::<R>(m, k);
        R::multiplication_distributes_over_addition(mx, kx, one);
        lemma_multiples_of_one_add::<R>(m * k, m);
        assert(m * n == m * k + m) by (nonlinear_arith)
            requires
                n == k + 1,
        ;
    }
}

/// A ring has at most one characteristic.
pub proof fn lemma_characteristic_is_unique<R: Ring>(p: nat, q: nat)
    requires
        is_characteristic::<R>(p),
        is_characteristic::<R>(q),
    ensures
        p == q,
{
}

/// The characteristic of an integral domain, and so of every field, is a prime number.
pub proof fn lemma_characteristic_is_prime<D: IntegralDomain>(p: nat)
    requires
        is_characteristic::<D>(p),
    ensures
        is_prime(p),
{
    let one = D::one_spec();
    D::zero_is_not_one();
    D::one_is_multiplicative_identity(one);
    D::zero_is_additive_identity(one);
    assert(multiple_of_one::<D>(1) == one) by {
        assert(multiple_of_one::<D>(1) == multiple_of_one::<D>(0).add_spec(one));
    }
    assert forall|d: nat| 1 < d < p implies #[trigger] (p % d) != 0 by {
        if p % d == 0 {
            let e = p / d;
            assert(p == d * e && 1 < e < p) by (nonlinear_arith)
                requires
                    1 < d < p,
                    p % d == 0,
                    e == p / d,
            ;
            lemma_multiple_of_one_is_element::<D>(d);
            lemma_multiple_of_one_is_element::<D>(e);
            lemma_multiples_of_one_multiply::<D>(d, e);
            D::no_zero_divisors(multiple_of_one::<D>(d), multiple_of_one::<D>(e));
        }
    }
}

/// A finite field of prime order has its characteristic for its order.
pub proof fn lemma_prime_order_is_characteristic<F: FiniteField>(p: nat, q: nat)
    requires
        is_characteristic::<F>(p),
        has_order::<F>(q),
        is_prime(q),
    ensures
        q == p,
{
    F::order_is_power_of_characteristic();
    let (p0, n) = choose|p0: nat, n: nat|
        is_characteristic::<F>(p0) && n >= 1 && #[trigger] has_order::<F>(pow(p0 as int, n) as nat);
    lemma_characteristic_is_unique::<F>(p, p0);
    lemma_characteristic_is_prime::<F>(p);
    let rest = pow(p as int, (n - 1) as nat);
    assert(pow(p as int, n) == p * rest) by {
        vstd::arithmetic::power::lemma_pow_adds(p as int, 1, (n - 1) as nat);
        vstd::arithmetic::power::lemma_pow1(p as int);
    }
    vstd::arithmetic::power::lemma_pow_positive(p as int, (n - 1) as nat);
    if rest > 1 {
        assert(1 < p < q && q % p == 0) by (nonlinear_arith)
            requires
                q == p * rest,
                rest > 1,
                p >= 2,
        ;
    } else {
        assert(q == p) by (nonlinear_arith)
            requires
                q == p * rest,
                rest == 1,
        ;
    }
}

} // verus!
