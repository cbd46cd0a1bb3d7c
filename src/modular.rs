//! Facts about arithmetic modulo a positive integer.
use vstd::prelude::*;
use vstd::arithmetic::div_mod::*;

verus! {

/// Reducing after each of two additions is reducing once.
pub proof fn lemma_add3_mod(a: int, b: int, c: int, m: int)
    requires
        0 < m,
    ensures
        (((a + b) % m) + c) % m == (a + b + c) % m,
        ((a + (b + c) % m)) % m == (a + b + c) % m,
{
    lemma_add_mod_noop(a + b, c, m);
    lemma_mod_twice(a + b, m);
    lemma_add_mod_noop((a + b) % m, c, m);
    lemma_add_mod_noop_right(a, b + c, m);
}

/// A value below the modulus is its own remainder.
pub proof fn lemma_canonical(a: int, m: int)
    requires
        0 <= a < m,
    ensures
        a % m == a,
{
    lemma_small_mod(a as nat, m as nat);
}

/// The product of two remainders has the remainder of the product.
pub proof fn lemma_mul_mod(a: int, b: int, m: int)
    requires
        0 < m,
    ensures
        ((a % m) * (b % m)) % m == (a * b) % m,
        (a * (b % m)) % m == (a * b) % m,
        ((a % m) * b) % m == (a * b) % m,
{
    lemma_mul_mod_noop(a, b, m);
    lemma_mul_mod_noop_right(a, b, m);
    lemma_mul_mod_noop_left(a, b, m);
}

/// The remainder of a sum depends on the summands' remainders only.
pub proof fn lemma_add_mod(a: int, b: int, m: int)
    requires
        0 < m,
    ensures
        ((a % m) + (b % m)) % m == (a + b) % m,
        (a + (b % m)) % m == (a + b) % m,
        ((a % m) + b) % m == (a + b) % m,
{
    lemma_add_mod_noop(a, b, m);
    lemma_add_mod_noop_right(a, b, m);
    lemma_add_mod_noop_right(b, a, m);
}

/// The remainder of a difference depends on the operands' remainders only.
pub proof fn lemma_sub_mod(a: int, b: int, m: int)
    requires
        0 < m,
    ensures
        ((a % m) - (b % m)) % m == (a - b) % m,
        (a - (b % m)) % m == (a - b) % m,
        ((a % m) - b) % m == (a - b) % m,
{
    lemma_sub_mod_noop(a, b, m);
    lemma_sub_mod_noop_right(a, b, m);
    lemma_add_mod_noop_right(-b, a, m);
}

/// Multiplying three remainders in turn reduces the whole product.
pub proof fn lemma_mul3_mod(a: int, b: int, c: int, m: int)
    requires
        0 < m,
    ensures
        (((a * b) % m) * c) % m == (a * b * c) % m,
{
    lemma_mul_mod_noop_left(a * b, c, m);
}

/// The product of two three-term sums, grouped by the summand pairs that a
/// replicated product collects at each party.
pub proof fn lemma_product_cross_terms(a0: int, a1: int, a2: int, b0: int, b1: int, b2: int)
    ensures
        (a0 + a1 + a2) * (b0 + b1 + b2)
            == (a0 * (b0 + b2) + b0 * a2) + (a1 * (b1 + b0) + b1 * a0) + (a2 * (b2 + b1) + b2 * a1),
{
    assert((a0 + a1 + a2) * (b0 + b1 + b2)
        == (a0 * (b0 + b2) + b0 * a2) + (a1 * (b1 + b0) + b1 * a0) + (a2 * (b2 + b1) + b2 * a1))
        by (nonlinear_arith);
}

} // verus!
