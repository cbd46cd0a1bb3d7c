//! Laws of the replicated scheme over the scalar field: what the per-party
//! steps of `RSS3FieldShare` amount to once all three parties have run them.
use vstd::prelude::*;

use crate::field::{lemma_scalar_range, modulus, Scalar};
use crate::modular::{lemma_add3_mod, lemma_add_mod, lemma_canonical, lemma_mul_mod, lemma_product_cross_terms};
use crate::rss3::{
    first_total, is_replicated, prev, product_part, public_slot0, public_slot1, second_total,
    shares_value, RSS3FieldShare,
};

verus! {

broadcast use lemma_scalar_range;

/// `z` holds, party by party and slot by slot, the sums of `x` and `y`.
pub open spec fn slotwise_sum(x: Seq<RSS3FieldShare>, y: Seq<RSS3FieldShare>, z: Seq<RSS3FieldShare>) -> bool {
    &&& z.len() == 3
    &&& forall|p: int| 0 <= p < 3 ==> {
        &&& (#[trigger] z[p]).val0@ == (x[p].val0@ + y[p].val0@) % modulus()
        &&& z[p].val1@ == (x[p].val1@ + y[p].val1@) % modulus()
    }
}

/// `z` is what a replicated multiplication of `x` by `y` leaves: each party
/// keeps its own product part and receives the previous party's.
pub open spec fn product_records(x: Seq<RSS3FieldShare>, y: Seq<RSS3FieldShare>, z: Seq<RSS3FieldShare>) -> bool {
    &&& z.len() == 3
    &&& forall|p: int| 0 <= p < 3 ==> {
        &&& (#[trigger] z[p]).val0@ == product_part(x[p], y[p])
        &&& z[p].val1@ == product_part(x[prev(p)], y[prev(p)])
    }
}

/// `Σ a[i]·b[i]` in the scalar field.
pub open spec fn inner_product(a: Seq<int>, b: Seq<int>) -> int
    decreases a.len(),
{
    if a.len() == 0 {
        0
    } else {
        (inner_product(a.drop_last(), b.drop_last()) + a.last() * b.last()) % modulus()
    }
}

/// In a replicated sharing the second slots hold the same summands as the
/// first, so reconstruction succeeds and yields the shared value.
pub proof fn lemma_replicated_totals_agree(s: Seq<RSS3FieldShare>)
    requires
        is_replicated(s),
    ensures
        first_total(s) == second_total(s),
{
    assert(s[0].val1@ == s[prev(0)].val0@);
    assert(s[1].val1@ == s[prev(1)].val0@);
    assert(s[2].val1@ == s[prev(2)].val0@);
}

/// Lifting a public value at each of the three parties gives a sharing of
/// that value, which reconstructs to it.
pub proof fn lemma_public_reconstructs(s: Seq<RSS3FieldShare>, v: Scalar)
    requires
        s.len() == 3,
        forall|p: int| 0 <= p < 3 ==> (#[trigger] s[p]).val0@ == public_slot0(p, v@)
            && s[p].val1@ == public_slot1(p, v@),
    ensures
        shares_value(s, v@),
        first_total(s) == second_total(s),
{
    assert(s[0].val1@ == s[prev(0)].val0@);
    assert(s[1].val1@ == s[prev(1)].val0@);
    assert(s[2].val1@ == s[prev(2)].val0@);
    lemma_canonical(v@, modulus());
}

/// Records drawn from common randomness at the three parties form a
/// sharing of the sum of the three summands.
pub proof fn lemma_common_randomness_shares(s: Seq<RSS3FieldShare>, r0: Scalar, r1: Scalar, r2: Scalar)
    requires
        s.len() == 3,
        s[0].val0 == r0 && s[0].val1 == r2,
        s[1].val0 == r1 && s[1].val1 == r0,
        s[2].val0 == r2 && s[2].val1 == r1,
    ensures
        shares_value(s, (r0@ + r1@ + r2@) % modulus()),
        first_total(s) == second_total(s),
{
    assert(s[0].val1@ == s[prev(0)].val0@);
    assert(s[1].val1@ == s[prev(1)].val0@);
    assert(s[2].val1@ == s[prev(2)].val0@);
}

/// Adding two sharings slot by slot at every party shares the sum.
pub proof fn lemma_sum_shares(x: Seq<RSS3FieldShare>, y: Seq<RSS3FieldShare>, z: Seq<RSS3FieldShare>, a: int, b: int)
    requires
        shares_value(x, a),
        shares_value(y, b),
        slotwise_sum(x, y, z),
    ensures
        shares_value(z, (a + b) % modulus()),
        first_total(z) == second_total(z),
{
    let m = modulus();
    assert forall|p: int| 0 <= p < 3 implies #[trigger] z[p].val1@ == z[prev(p)].val0@ by {
        assert(z[p].val1@ == (x[p].val1@ + y[p].val1@) % m);
        assert(x[p].val1@ == x[prev(p)].val0@);
        assert(y[p].val1@ == y[prev(p)].val0@);
    }
    let (x0, x1, x2) = (x[0].val0@, x[1].val0@, x[2].val0@);
    let (y0, y1, y2) = (y[0].val0@, y[1].val0@, y[2].val0@);
    assert(z[0].val0@ == (x0 + y0) % m);
    assert(z[1].val0@ == (x1 + y1) % m);
    assert(z[2].val0@ == (x2 + y2) % m);
    lemma_add_mod(x0 + y0, x1 + y1, m);
    lemma_add_mod(x0 + y0 + x1 + y1, x2 + y2, m);
    lemma_add3_mod(z[0].val0@, z[1].val0@, z[2].val0@, m);
    lemma_add_mod((x0 + y0) % m + (x1 + y1) % m, x2 + y2, m);
    lemma_add_mod(x0 + x1 + x2, y0 + y1 + y2, m);
    assert(x0 + y0 + x1 + y1 + x2 + y2 == (x0 + x1 + x2) + (y0 + y1 + y2));
    lemma_replicated_totals_agree(z);
}

/// One replicated multiplication round turns sharings of `a` and `b` into
/// a sharing of `a·b`, without any Beaver triple.
pub proof fn lemma_product_shares(x: Seq<RSS3FieldShare>, y: Seq<RSS3FieldShare>, z: Seq<RSS3FieldShare>, a: int, b: int)
    requires
        shares_value(x, a),
        shares_value(y, b),
        product_records(x, y, z),
    ensures
        shares_value(z, (a * b) % modulus()),
        first_total(z) == second_total(z),
{
    let m = modulus();
    assert forall|p: int| 0 <= p < 3 implies #[trigger] z[p].val1@ == z[prev(p)].val0@ by {
        assert(z[p].val1@ == product_part(x[prev(p)], y[prev(p)]));
        assert(z[prev(p)].val0@ == product_part(x[prev(p)], y[prev(p)]));
    }
    let (a0, a1, a2) = (x[0].val0@, x[1].val0@, x[2].val0@);
    let (b0, b1, b2) = (y[0].val0@, y[1].val0@, y[2].val0@);
    assert(x[0].val1@ == a2 && x[1].val1@ == a0 && x[2].val1@ == a1) by {
        assert(x[0].val1@ == x[prev(0)].val0@);
        assert(x[1].val1@ == x[prev(1)].val0@);
        assert(x[2].val1@ == x[prev(2)].val0@);
    }
    assert(y[0].val1@ == b2 && y[1].val1@ == b0 && y[2].val1@ == b1) by {
        assert(y[0].val1@ == y[prev(0)].val0@);
        assert(y[1].val1@ == y[prev(1)].val0@);
        assert(y[2].val1@ == y[prev(2)].val0@);
    }
    let e0 = a0 * (b0 + b2) + b0 * a2;
    let e1 = a1 * (b1 + b0) + b1 * a0;
    let e2 = a2 * (b2 + b1) + b2 * a1;
    assert(z[0].val0@ == e0 % m);
    assert(z[1].val0@ == e1 % m);
    assert(z[2].val0@ == e2 % m);
    lemma_product_cross_terms(a0, a1, a2, b0, b1, b2);
    lemma_add_mod(e0, e1, m);
    lemma_add_mod(e0 + e1, e2, m);
    lemma_add_mod(e0 % m + e1 % m, e2, m);
    lemma_add3_mod(e0 % m, e1 % m, e2 % m, m);
    lemma_mul_mod(a0 + a1 + a2, b0 + b1 + b2, m);
    lemma_replicated_totals_agree(z);
}

/// Sharing the running sum of products: `acc[0]` shares zero and `acc[k+1]`
/// adds the `k`-th product to `acc[k]`; the last one shares the inner product.
pub proof fn lemma_inner_product_shares(
    xs: Seq<Seq<RSS3FieldShare>>,
    ys: Seq<Seq<RSS3FieldShare>>,
    zs: Seq<Seq<RSS3FieldShare>>,
    acc: Seq<Seq<RSS3FieldShare>>,
    a: Seq<int>,
    b: Seq<int>,
)
    requires
        xs.len() == a.len(),
        ys.len() == a.len(),
        zs.len() == a.len(),
        b.len() == a.len(),
        acc.len() == a.len() + 1,
        shares_value(acc[0], 0),
        forall|k: int| 0 <= k < a.len() ==> shares_value(#[trigger] xs[k], a[k]) && shares_value(ys[k], b[k]),
        forall|k: int| 0 <= k < a.len() ==> product_records(xs[k], ys[k], #[trigger] zs[k]),
        forall|k: int| 0 <= k < a.len() ==> slotwise_sum(#[trigger] acc[k], zs[k], acc[k + 1]),
    ensures
        shares_value(acc[a.len() as int], inner_product(a, b)),
        first_total(acc[a.len() as int]) == second_total(acc[a.len() as int]),
{
    lemma_inner_product_prefix(xs, ys, zs, acc, a, b, a.len() as int);
    assert(a.take(a.len() as int) =~= a);
    assert(b.take(a.len() as int) =~= b);
    lemma_replicated_totals_agree(acc[a.len() as int]);
}

#[verifier::rlimit(40)]
proof fn lemma_inner_product_prefix(
    xs: Seq<Seq<RSS3FieldShare>>,
    ys: Seq<Seq<RSS3FieldShare>>,
    zs: Seq<Seq<RSS3FieldShare>>,
    acc: Seq<Seq<RSS3FieldShare>>,
    a: Seq<int>,
    b: Seq<int>,
    k: int,
)
    requires
        xs.len() == a.len(),
        ys.len() == a.len(),
        zs.len() == a.len(),
        b.len() == a.len(),
        acc.len() == a.len() + 1,
        0 <= k <= a.len(),
        shares_value(acc[0], 0),
        forall|k: int| 0 <= k < a.len() ==> shares_value(#[trigger] xs[k], a[k]) && shares_value(ys[k], b[k]),
        forall|k: int| 0 <= k < a.len() ==> product_records(xs[k], ys[k], #[trigger] zs[k]),
        forall|k: int| 0 <= k < a.len() ==> slotwise_sum(#[trigger] acc[k], zs[k], acc[k + 1]),
    ensures
        shares_value(acc[k], inner_product(a.take(k), b.take(k))),
    decreases k,
{
    if k == 0 {
        assert(a.take(0).len() == 0);
    } else {
        let j = k - 1;
        lemma_inner_product_prefix(xs, ys, zs, acc, a, b, j);
        assert(shares_value(xs[j], a[j]));
        assert(product_records(xs[j], ys[j], zs[j]));
        assert(slotwise_sum(acc[j], zs[j], acc[j + 1]));
        lemma_product_shares(xs[j], ys[j], zs[j], a[j], b[j]);
        let prev_ip = inner_product(a.take(j), b.take(j));
        let pj = a[j] * b[j];
        lemma_sum_shares(acc[j], zs[j], acc[k], prev_ip, pj % modulus());
        assert(a.take(k).drop_last() =~= a.take(j));
        assert(b.take(k).drop_last() =~= b.take(j));
        assert(a.take(k).last() == a[j]);
        assert(b.take(k).last() == b[j]);
        assert(inner_product(a.take(k), b.take(k)) == (prev_ip + pj) % modulus());
        lemma_add_mod(prev_ip, pj, modulus());
    }
}

/// Changing one party's broadcast record so that its two slots move by
/// different amounts makes reconstruction fail: the first and second totals
/// of the received records then differ.
pub proof fn lemma_single_fault_detected(s: Seq<RSS3FieldShare>, t: Seq<RSS3FieldShare>, k: int, v: int)
    requires
        shares_value(s, v),
        t.len() == 3,
        0 <= k < 3,
        forall|p: int| 0 <= p < 3 && p != k ==> #[trigger] t[p] == s[p],
        (t[k].val0@ - s[k].val0@) % modulus() != (t[k].val1@ - s[k].val1@) % modulus(),
    ensures
        first_total(t) != second_total(t),
{
    let m = modulus();
    lemma_replicated_totals_agree(s);
    let d0 = t[k].val0@ - s[k].val0@;
    let d1 = t[k].val1@ - s[k].val1@;
    let s0 = s[0].val0@ + s[1].val0@ + s[2].val0@;
    let s1 = s[0].val1@ + s[1].val1@ + s[2].val1@;
    assert(s[0].val1@ == s[prev(0)].val0@);
    assert(s[1].val1@ == s[prev(1)].val0@);
    assert(s[2].val1@ == s[prev(2)].val0@);
    assert(s0 == s1);
    assert(t[0].val0@ + t[1].val0@ + t[2].val0@ == s0 + d0) by {
        assert(t[0] == s[0] || k == 0);
        assert(t[1] == s[1] || k == 1);
        assert(t[2] == s[2] || k == 2);
    }
    assert(t[0].val1@ + t[1].val1@ + t[2].val1@ == s0 + d1) by {
        assert(t[0] == s[0] || k == 0);
        assert(t[1] == s[1] || k == 1);
        assert(t[2] == s[2] || k == 2);
    }
    if (s0 + d0) % m == (s0 + d1) % m {
        vstd::arithmetic::div_mod::lemma_mod_equivalence(s0 + d0, s0 + d1, m);
        vstd::arithmetic::div_mod::lemma_mod_equivalence(d0, d1, m);
        assert((s0 + d0) - (s0 + d1) == d0 - d1);
    }
}

} // verus!
