//! The three-party replicated scheme over the scalar field.
//!
//! A value `v = a0 + a1 + a2` is held as three records: party `i` keeps
//! `(a_i, a_{i-1})`, indices taken modulo three, so that every summand is
//! known to exactly two parties.
use vstd::prelude::*;

use crate::field::{lemma_scalar_range, modulus, scalar_values, Scalar};
use crate::poly::{
    check_well_formed, has_nonzero_coeff, increasing_degrees, is_nonzero_poly, is_well_formed, poly_divide, poly_division_of,
    poly_model, term_values, Poly, PolyModel,
};
use crate::modular::{lemma_add3_mod, lemma_add_mod, lemma_canonical, lemma_mul_mod, lemma_sub_mod};
use crate::ShareError;

verus! {

broadcast use lemma_scalar_range;

/// One party's record of a value shared under the replicated scheme.
#[derive(Clone, Copy, Debug)]
pub struct RSS3FieldShare {
    /// The summand this party contributes to the first total.
    pub val0: Scalar,
    /// The summand that the previous party keeps in its first slot.
    pub val1: Scalar,
}

/// The index of the party before `i` in the ring.
pub open spec fn prev(i: int) -> int {
    (i + 2) % 3
}

/// The sum of the first slots of three records.
pub open spec fn first_total(s: Seq<RSS3FieldShare>) -> int {
    (s[0].val0@ + s[1].val0@ + s[2].val0@) % modulus()
}

/// The sum of the second slots of three records.
pub open spec fn second_total(s: Seq<RSS3FieldShare>) -> int {
    (s[0].val1@ + s[1].val1@ + s[2].val1@) % modulus()
}

/// Three records, one per party, where each party's second slot repeats the
/// previous party's first slot.
pub open spec fn is_replicated(s: Seq<RSS3FieldShare>) -> bool {
    &&& s.len() == 3
    &&& forall|i: int| 0 <= i < 3 ==> #[trigger] s[i].val1@ == s[prev(i)].val0@
}

/// The three records are a valid sharing of `v`.
pub open spec fn shares_value(s: Seq<RSS3FieldShare>, v: int) -> bool {
    is_replicated(s) && first_total(s) == v
}

/// The first slot that party `p` holds for the public value `v`.
pub open spec fn public_slot0(p: int, v: int) -> int {
    if p == 0 { v } else { 0 }
}

/// The second slot that party `p` holds for the public value `v`.
pub open spec fn public_slot1(p: int, v: int) -> int {
    if p == 1 { v } else { 0 }
}

/// What a party sends after the local step of a multiplication: its own
/// three of the nine cross terms of the product.
pub open spec fn product_part(x: RSS3FieldShare, y: RSS3FieldShare) -> int {
    (x.val0@ * (y.val0@ + y.val1@) + y.val0@ * x.val1@) % modulus()
}

/// The first slots of a sequence of records.
pub open spec fn first_slots(s: Seq<RSS3FieldShare>) -> Seq<int> {
    s.map_values(|x: RSS3FieldShare| x.val0@)
}

/// The second slots of a sequence of records.
pub open spec fn second_slots(s: Seq<RSS3FieldShare>) -> Seq<int> {
    s.map_values(|x: RSS3FieldShare| x.val1@)
}

/// Coefficient `i` of `p`, zero past its end.
pub open spec fn coeff(p: Seq<int>, i: int) -> int {
    if 0 <= i < p.len() { p[i] } else { 0 }
}

/// `r` pairs the coefficients of `c0` and `c1` position by position, the
/// shorter padded with zeros.
pub open spec fn paired_coeffs(r: Seq<RSS3FieldShare>, c0: Seq<int>, c1: Seq<int>) -> bool {
    &&& r.len() == if c0.len() >= c1.len() { c0.len() } else { c1.len() }
    &&& forall|i: int| 0 <= i < r.len() ==> (#[trigger] r[i]).val0@ == coeff(c0, i) && r[i].val1@ == coeff(c1, i)
}

/// A polynomial with shared coefficients, given densely (`Ok`) or sparsely
/// (`Err`, as `(degree, coefficient)` pairs).
pub type SharedPoly = Result<Vec<RSS3FieldShare>, Vec<(usize, RSS3FieldShare)>>;

/// The terms of one slot of sparse records.
pub open spec fn sparse_slot(t: Seq<(usize, RSS3FieldShare)>, slot: int) -> Seq<(int, int)> {
    t.map_values(|x: (usize, RSS3FieldShare)| (x.0 as int, if slot == 0 { x.1.val0@ } else { x.1.val1@ }))
}

/// The polynomial of one slot of a shared polynomial.
pub open spec fn shared_poly_model(p: SharedPoly, slot: int) -> PolyModel {
    match p {
        Ok(c) => Ok(if slot == 0 { first_slots(c@) } else { second_slots(c@) }),
        Err(t) => Err(sparse_slot(t@, slot)),
    }
}

/// Three records, one per party, as a sequence.
pub open spec fn records(s: &[RSS3FieldShare; 3]) -> Seq<RSS3FieldShare> {
    s@
}

/// The records at position `i` of the three parties' batches.
pub open spec fn column<T>(b0: Seq<T>, b1: Seq<T>, b2: Seq<T>, i: int) -> Seq<T> {
    seq![b0[i], b1[i], b2[i]]
}

/// `s` is the king's split of `f` with masks `r0` and `r1`: parties 0 and 1
/// get the masks as their summands, party 2 the rest of `f`.
pub open spec fn king_split(s: Seq<RSS3FieldShare>, f: Scalar, r0: Scalar, r1: Scalar) -> bool {
    &&& shares_value(s, f@)
    &&& s[0].val0 == r0
    &&& s[1].val0 == r1
    &&& s[2].val0@ == ((f@ - r0@) % modulus() - r1@) % modulus()
}

impl RSS3FieldShare {
    /// The record of zero.
    pub fn zero() -> (r: RSS3FieldShare)
        ensures
            r.val0@ == 0,
            r.val1@ == 0,
    {
        RSS3FieldShare { val0: Scalar::zero(), val1: Scalar::zero() }
    }

    /// Party `party`'s record of the public value `f`; needs no message.
    pub fn from_public(party: usize, f: Scalar) -> (r: RSS3FieldShare)
        ensures
            r.val0@ == public_slot0(party as int, f@),
            r.val1@ == public_slot1(party as int, f@),
    {
        if party == 0 {
            RSS3FieldShare { val0: f, val1: Scalar::zero() }
        } else if party == 1 {
            RSS3FieldShare { val0: Scalar::zero(), val1: f }
        } else {
            RSS3FieldShare::zero()
        }
    }

    /// Party `party`'s record of the random value `r0 + r1 + r2`, when every
    /// party draws the same three summands from a common seed.
    pub fn from_common_randomness(party: usize, r0: Scalar, r1: Scalar, r2: Scalar) -> (r: RSS3FieldShare)
        ensures
            party == 0 ==> r.val0 == r0 && r.val1 == r2,
            party == 1 ==> r.val0 == r1 && r.val1 == r0,
            party == 2 ==> r.val0 == r2 && r.val1 == r1,
            party > 2 ==> r.val0@ == 0 && r.val1@ == 0,
    {
        if party == 0 {
            RSS3FieldShare { val0: r0, val1: r2 }
        } else if party == 1 {
            RSS3FieldShare { val0: r1, val1: r0 }
        } else if party == 2 {
            RSS3FieldShare { val0: r2, val1: r1 }
        } else {
            RSS3FieldShare::zero()
        }
    }

    /// The king's split of `f` with the random masks `r0` and `r1`: the
    /// records to send to parties 0, 1 and 2.
    pub fn king_share(f: &Scalar, r0: &Scalar, r1: &Scalar) -> (r: [RSS3FieldShare; 3])
        ensures
            king_split(r@, *f, *r0, *r1),
    {
        let r2 = f.sub(r0).sub(r1);
        let out = [
            RSS3FieldShare { val0: *r0, val1: r2 },
            RSS3FieldShare { val0: *r1, val1: *r0 },
            RSS3FieldShare { val0: r2, val1: *r1 },
        ];
        proof {
            let m = modulus();
            lemma_sub_mod(f@ - r0@, r1@, m);
            lemma_add3_mod(r0@, r1@, r2@, m);
            lemma_add_mod(r0@ + r1@, f@ - r0@ - r1@, m);
            lemma_sub_mod(f@, r0@, m);
            lemma_canonical(f@, m);
            assert(out@[0].val1@ == out@[prev(0)].val0@);
            assert(out@[1].val1@ == out@[prev(1)].val0@);
            assert(out@[2].val1@ == out@[prev(2)].val0@);
        }
        out
    }

    /// The king's split of each value of `fs`, the masks of value `i` being
    /// `masks0[i]` and `masks1[i]`: the batches to send to parties 0, 1 and 2.
    pub fn king_share_batch(fs: &Vec<Scalar>, masks0: &Vec<Scalar>, masks1: &Vec<Scalar>) -> (r: [Vec<RSS3FieldShare>; 3])
        requires
            masks0.len() == fs.len(),
            masks1.len() == fs.len(),
        ensures
            r[0].len() == fs.len(),
            r[1].len() == fs.len(),
            r[2].len() == fs.len(),
            forall|i: int| 0 <= i < fs.len() ==> king_split(
                #[trigger] column(r[0]@, r[1]@, r[2]@, i), fs[i], masks0[i], masks1[i]),
    {
        let mut b0: Vec<RSS3FieldShare> = Vec::new();
        let mut b1: Vec<RSS3FieldShare> = Vec::new();
        let mut b2: Vec<RSS3FieldShare> = Vec::new();
        let mut i: usize = 0;
        while i < fs.len()
            invariant
                0 <= i <= fs.len(),
                masks0.len() == fs.len(),
                masks1.len() == fs.len(),
                b0.len() == i,
                b1.len() == i,
                b2.len() == i,
                forall|j: int| 0 <= j < i ==> king_split(
                    #[trigger] column(b0@, b1@, b2@, j), fs[j], masks0[j], masks1[j]),
            decreases fs.len() - i,
        {
            let s = RSS3FieldShare::king_share(&fs[i], &masks0[i], &masks1[i]);
            let ghost (o0, o1, o2) = (b0@, b1@, b2@);
            b0.push(s[0]);
            b1.push(s[1]);
            b2.push(s[2]);
            assert(column(b0@, b1@, b2@, i as int) =~= s@);
            assert forall|j: int| 0 <= j < i implies #[trigger] column(b0@, b1@, b2@, j) == column(o0, o1, o2, j) by {
                assert(column(b0@, b1@, b2@, j) =~= column(o0, o1, o2, j));
            }
            i = i + 1;
        }
        let r = [b0, b1, b2];
        assert(r[0]@ == b0@ && r[1]@ == b1@ && r[2]@ == b2@);
        assert forall|j: int| 0 <= j < fs.len() implies #[trigger] column(r[0]@, r[1]@, r[2]@, j)
            == column(b0@, b1@, b2@, j) by {}
        r
    }

    /// Reconstructs the value from the three parties' records, as each party
    /// receives them from the all-to-all broadcast. Fails when the sums of
    /// the first and of the second slots disagree.
    pub fn reconstruct(received: &[RSS3FieldShare; 3]) -> (r: Result<Scalar, ShareError>)
        ensures
            r is Ok <==> first_total(received@) == second_total(received@),
            r is Ok ==> r->Ok_0@ == first_total(received@),
            r is Err ==> r->Err_0 == ShareError::Inconsistent,
    {
        let s = received;
        let res0 = s[0].val0.add(&s[1].val0).add(&s[2].val0);
        let res1 = s[0].val1.add(&s[1].val1).add(&s[2].val1);
        proof {
            lemma_add3_mod(s[0].val0@, s[1].val0@, s[2].val0@, modulus());
            lemma_add3_mod(s[0].val1@, s[1].val1@, s[2].val1@, modulus());
        }
        if res0.equals(&res1) {
            Ok(res0)
        } else {
            Err(ShareError::Inconsistent)
        }
    }

    /// Reconstructs many values in one broadcast round: `received[p]` is the
    /// batch that party `p` sent. Fails when any value's copies disagree.
    pub fn batch_open(received: &[Vec<RSS3FieldShare>; 3]) -> (r: Result<Vec<Scalar>, ShareError>)
        requires
            received[1].len() == received[0].len(),
            received[2].len() == received[0].len(),
        ensures
            r is Ok <==> forall|i: int| 0 <= i < received[0].len() ==>
                first_total(#[trigger] column(received[0]@, received[1]@, received[2]@, i))
                    == second_total(column(received[0]@, received[1]@, received[2]@, i)),
            r is Ok ==> r->Ok_0.len() == received[0].len(),
            r is Ok ==> forall|i: int| 0 <= i < received[0].len() ==> (#[trigger] r->Ok_0[i])@
                == first_total(column(received[0]@, received[1]@, received[2]@, i)),
            r is Err ==> r->Err_0 == ShareError::Inconsistent,
    {
        let n = received[0].len();
        let mut out: Vec<Scalar> = Vec::new();
        let mut i: usize = 0;
        while i < n
            invariant
                0 <= i <= n,
                n == received[0].len(),
                received[1].len() == n,
                received[2].len() == n,
                out.len() == i,
                forall|j: int| 0 <= j < i ==> first_total(#[trigger] column(received[0]@, received[1]@, received[2]@, j))
                    == second_total(column(received[0]@, received[1]@, received[2]@, j)),
                forall|j: int| 0 <= j < i ==> (#[trigger] out[j])@
                    == first_total(column(received[0]@, received[1]@, received[2]@, j)),
            decreases n - i,
        {
            let c = [received[0][i], received[1][i], received[2][i]];
            assert(c@ =~= column(received[0]@, received[1]@, received[2]@, i as int));
            match RSS3FieldShare::reconstruct(&c) {
                Ok(v) => {
                    out.push(v);
                },
                Err(e) => {
                    return Err(e);
                },
            }
            i = i + 1;
        }
        Ok(out)
    }

    /// A secret record is never trivially public: always fails.
    pub fn unwrap_as_public(&self) -> (r: Result<Scalar, ShareError>)
        ensures
            r == Err::<Scalar, ShareError>(ShareError::Unsupported),
    {
        Err(ShareError::Unsupported)
    }

    /// Adds `other` slot by slot; needs no message.
    pub fn add(&mut self, other: &RSS3FieldShare)
        ensures
            final(self).val0@ == (old(self).val0@ + other.val0@) % modulus(),
            final(self).val1@ == (old(self).val1@ + other.val1@) % modulus(),
    {
        self.val0 = self.val0.add(&other.val0);
        self.val1 = self.val1.add(&other.val1);
    }

    /// Subtracts `other` slot by slot; needs no message.
    pub fn sub(&mut self, other: &RSS3FieldShare)
        ensures
            final(self).val0@ == (old(self).val0@ - other.val0@) % modulus(),
            final(self).val1@ == (old(self).val1@ - other.val1@) % modulus(),
    {
        self.val0 = self.val0.sub(&other.val0);
        self.val1 = self.val1.sub(&other.val1);
    }

    /// Multiplies both slots by the public `k`; needs no message.
    pub fn scale(&mut self, k: &Scalar)
        ensures
            final(self).val0@ == (old(self).val0@ * k@) % modulus(),
            final(self).val1@ == (old(self).val1@ * k@) % modulus(),
    {
        self.val0 = self.val0.mul(k);
        self.val1 = self.val1.mul(k);
    }

    /// Adds the public `c` to the shared value: `c` goes to summand 0, which
    /// party 0 keeps in its first slot and party 1 in its second.
    pub fn shift(&mut self, party: usize, c: &Scalar)
        ensures
            final(self).val0@ == (old(self).val0@ + public_slot0(party as int, c@)) % modulus(),
            final(self).val1@ == (old(self).val1@ + public_slot1(party as int, c@)) % modulus(),
    {
        proof {
            lemma_canonical(self.val0@, modulus());
            lemma_canonical(self.val1@, modulus());
        }
        if party == 0 {
            self.val0 = self.val0.add(c);
        } else if party == 1 {
            self.val1 = self.val1.add(c);
        }
    }

    /// The local step of a multiplication: the value this party passes to
    /// the next party in the ring. No Beaver triple is needed.
    pub fn mul_local(&self, other: &RSS3FieldShare) -> (z0: Scalar)
        ensures
            z0@ == product_part(*self, *other),
    {
        let t = self.val0.mul(&other.val0.add(&other.val1));
        let u = other.val0.mul(&self.val1);
        proof {
            let m = modulus();
            lemma_mul_mod(self.val0@, other.val0@ + other.val1@, m);
            lemma_add_mod(self.val0@ * (other.val0@ + other.val1@), other.val0@ * self.val1@, m);
        }
        t.add(&u)
    }

    /// The finishing step of a multiplication: `z0` is what this party
    /// computed, `z1` what it received from the previous party.
    pub fn mul_finish(z0: Scalar, z1: Scalar) -> (r: RSS3FieldShare)
        ensures
            r.val0 == z0,
            r.val1 == z1,
    {
        RSS3FieldShare { val0: z0, val1: z1 }
    }

    /// The local step of multiplying `xs[i]` by `ys[i]` for every `i`; all
    /// the results go to the next party in one message.
    pub fn batch_mul_local(xs: &Vec<RSS3FieldShare>, ys: &Vec<RSS3FieldShare>) -> (z0s: Vec<Scalar>)
        requires
            xs.len() == ys.len(),
        ensures
            z0s.len() == xs.len(),
            forall|i: int| 0 <= i < xs.len() ==> (#[trigger] z0s[i])@ == product_part(xs[i], ys[i]),
    {
        let mut z0s: Vec<Scalar> = Vec::new();
        let mut i: usize = 0;
        while i < xs.len()
            invariant
                0 <= i <= xs.len(),
                xs.len() == ys.len(),
                z0s.len() == i,
                forall|j: int| 0 <= j < i ==> (#[trigger] z0s[j])@ == product_part(xs[j], ys[j]),
            decreases xs.len() - i,
        {
            z0s.push(xs[i].mul_local(&ys[i]));
            i = i + 1;
        }
        z0s
    }

    /// The finishing step of a batch multiplication: `z0s` as computed here,
    /// `z1s` as received from the previous party.
    pub fn batch_mul_finish(z0s: &Vec<Scalar>, z1s: &Vec<Scalar>) -> (r: Vec<RSS3FieldShare>)
        requires
            z0s.len() == z1s.len(),
        ensures
            r.len() == z0s.len(),
            forall|i: int| 0 <= i < z0s.len() ==> (#[trigger] r[i]).val0 == z0s[i] && r[i].val1 == z1s[i],
    {
        let mut r: Vec<RSS3FieldShare> = Vec::new();
        let mut i: usize = 0;
        while i < z0s.len()
            invariant
                0 <= i <= z0s.len(),
                z0s.len() == z1s.len(),
                r.len() == i,
                forall|j: int| 0 <= j < i ==> (#[trigger] r[j]).val0 == z0s[j] && r[j].val1 == z1s[j],
            decreases z0s.len() - i,
        {
            r.push(RSS3FieldShare::mul_finish(z0s[i], z1s[i]));
            i = i + 1;
        }
        r
    }

    /// Divides this party's records of a shared polynomial `num` by the
    /// public polynomial `den`, each slot's polynomial separately. `None`
    /// when `den` is the zero polynomial, or when a sparse polynomial does
    /// not list its degrees in increasing order. Needs no message.
    pub fn univariate_div_qr(num: &SharedPoly, den: &Poly) -> (r: Option<(Vec<RSS3FieldShare>, Vec<RSS3FieldShare>)>)
        ensures
            r is Some <==> is_nonzero_poly(poly_model(*den)) && is_well_formed(poly_model(*den))
                && is_well_formed(shared_poly_model(*num, 0)),
            r is Some ==> {
                let d0 = poly_division_of(shared_poly_model(*num, 0), poly_model(*den));
                let d1 = poly_division_of(shared_poly_model(*num, 1), poly_model(*den));
                &&& paired_coeffs((r->0).0@, d0.0, d1.0)
                &&& paired_coeffs((r->0).1@, d0.1, d1.1)
            },
    {
        if !check_well_formed(den) || !has_nonzero_coeff(den) {
            return None;
        }
        let (n0, n1) = poly_share(num);
        if !check_well_formed(&n0) {
            return None;
        }
        let (q0, r0) = poly_divide(&n0, den);
        let (q1, r1) = poly_divide(&n1, den);
        Some((d_poly_unshare(&q0, &q1), d_poly_unshare(&r0, &r1)))
    }
}

/// Splits a shared polynomial into the polynomials of its two slots.
fn poly_share(p: &SharedPoly) -> (r: (Poly, Poly))
    ensures
        poly_model(r.0) == shared_poly_model(*p, 0),
        poly_model(r.1) == shared_poly_model(*p, 1),
        is_well_formed(poly_model(r.1)) == is_well_formed(poly_model(r.0)),
{
    match p {
        Ok(c) => {
            let (c0, c1) = d_poly_share(c);
            (Ok(c0), Ok(c1))
        },
        Err(t) => {
            let (t0, t1) = s_poly_share(t);
            let ghost d0 = term_values(t0@);
            let ghost d1 = term_values(t1@);
            assert forall|k: int| 0 <= k < t.len() implies #[trigger] d0[k].0 == d1[k].0 by {
                assert(d0[k] == sparse_slot(t@, 0)[k]);
                assert(d1[k] == sparse_slot(t@, 1)[k]);
            }
            assert(d0.len() == t.len() && d1.len() == t.len());
            proof {
                if increasing_degrees(d0) {
                    assert forall|a: int, b: int| 0 <= a < b < d1.len() implies #[trigger] d1[a].0 < #[trigger] d1[b].0 by {
                        assert(d0[a].0 < d0[b].0);
                    }
                }
                if increasing_degrees(d1) {
                    assert forall|a: int, b: int| 0 <= a < b < d0.len() implies #[trigger] d0[a].0 < #[trigger] d0[b].0 by {
                        assert(d1[a].0 < d1[b].0);
                    }
                }
            }
            (Err(t0), Err(t1))
        },
    }
}

/// Splits dense records into the coefficients of the two slots.
fn d_poly_share(num: &Vec<RSS3FieldShare>) -> (r: (Vec<Scalar>, Vec<Scalar>))
    ensures
        scalar_values(r.0@) == first_slots(num@),
        scalar_values(r.1@) == second_slots(num@),
{
    let mut c0: Vec<Scalar> = Vec::new();
    let mut c1: Vec<Scalar> = Vec::new();
    let mut i: usize = 0;
    while i < num.len()
        invariant
            0 <= i <= num.len(),
            c0.len() == i,
            c1.len() == i,
            forall|j: int| 0 <= j < i ==> c0[j] == (#[trigger] num[j]).val0 && c1[j] == num[j].val1,
        decreases num.len() - i,
    {
        c0.push(num[i].val0);
        c1.push(num[i].val1);
        i = i + 1;
    }
    assert forall|j: int| 0 <= j < num.len() implies #[trigger] scalar_values(c1@)[j] == second_slots(num@)[j] by {
        assert(c1[j] == num[j].val1);
    }
    assert forall|j: int| 0 <= j < num.len() implies #[trigger] scalar_values(c0@)[j] == first_slots(num@)[j] by {
        assert(c0[j] == num[j].val0);
    }
    assert(scalar_values(c0@) =~= first_slots(num@));
    assert(scalar_values(c1@) =~= second_slots(num@));
    (c0, c1)
}

/// Splits sparse records into the terms of the two slots.
fn s_poly_share(num: &Vec<(usize, RSS3FieldShare)>) -> (r: (Vec<(usize, Scalar)>, Vec<(usize, Scalar)>))
    ensures
        term_values(r.0@) == sparse_slot(num@, 0),
        term_values(r.1@) == sparse_slot(num@, 1),
{
    let mut t0: Vec<(usize, Scalar)> = Vec::new();
    let mut t1: Vec<(usize, Scalar)> = Vec::new();
    let mut i: usize = 0;
    while i < num.len()
        invariant
            0 <= i <= num.len(),
            t0.len() == i,
            t1.len() == i,
            forall|j: int| 0 <= j < i ==> t0[j] == ((#[trigger] num[j]).0, num[j].1.val0) && t1[j] == (num[j].0, num[j].1.val1),
        decreases num.len() - i,
    {
        t0.push((num[i].0, num[i].1.val0));
        t1.push((num[i].0, num[i].1.val1));
        i = i + 1;
    }
    assert forall|j: int| 0 <= j < num.len() implies #[trigger] term_values(t0@)[j] == sparse_slot(num@, 0)[j]
        && term_values(t1@)[j] == sparse_slot(num@, 1)[j] by {
        assert(t0[j] == (num[j].0, num[j].1.val0));
        assert(t1[j] == (num[j].0, num[j].1.val1));
    }
    assert(term_values(t0@) =~= sparse_slot(num@, 0));
    assert(term_values(t1@) =~= sparse_slot(num@, 1));
    (t0, t1)
}

/// Pairs the coefficients of two slot polynomials into records, padding
/// the shorter with zeros.
fn d_poly_unshare(c0: &Vec<Scalar>, c1: &Vec<Scalar>) -> (r: Vec<RSS3FieldShare>)
    ensures
        paired_coeffs(r@, scalar_values(c0@), scalar_values(c1@)),
{
    let len = if c0.len() >= c1.len() { c0.len() } else { c1.len() };
    let mut r: Vec<RSS3FieldShare> = Vec::new();
    let mut i: usize = 0;
    while i < len
        invariant
            0 <= i <= len,
            len == if c0.len() >= c1.len() { c0.len() } else { c1.len() },
            r.len() == i,
            forall|j: int| 0 <= j < i ==> (#[trigger] r[j]).val0@ == coeff(scalar_values(c0@), j)
                && r[j].val1@ == coeff(scalar_values(c1@), j),
        decreases len - i,
    {
        let v0 = if i < c0.len() { c0[i] } else { Scalar::zero() };
        let v1 = if i < c1.len() { c1[i] } else { Scalar::zero() };
        r.push(RSS3FieldShare { val0: v0, val1: v1 });
        i = i + 1;
    }
    r
}

} // verus!
