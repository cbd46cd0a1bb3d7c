//! The multiplicative companion scheme: the replicated record layout, but a
//! value is the product of the three summands rather than their sum. Used
//! where the group operation is field multiplication.
use vstd::prelude::*;

use crate::field::{lemma_scalar_range, modulus, Scalar};
use crate::modular::{lemma_canonical, lemma_mul3_mod, lemma_mul_mod};
use crate::rss3::{column, prev};
use crate::ShareError;

verus! {

broadcast use lemma_scalar_range;

/// One party's record of a value shared multiplicatively.
#[derive(Clone, Copy, Debug)]
pub struct MulFieldShare {
    /// The factor this party contributes to the first product.
    pub val0: Scalar,
    /// The factor that the previous party keeps in its first slot.
    pub val1: Scalar,
}

/// The product of the first slots of three records.
pub open spec fn first_product(s: Seq<MulFieldShare>) -> int {
    (s[0].val0@ * s[1].val0@ * s[2].val0@) % modulus()
}

/// The product of the second slots of three records.
pub open spec fn second_product(s: Seq<MulFieldShare>) -> int {
    (s[0].val1@ * s[1].val1@ * s[2].val1@) % modulus()
}

/// The three records are a valid multiplicative sharing of `v`.
pub open spec fn mul_shares_value(s: Seq<MulFieldShare>, v: int) -> bool {
    &&& s.len() == 3
    &&& forall|i: int| 0 <= i < 3 ==> #[trigger] s[i].val1@ == s[prev(i)].val0@
    &&& first_product(s) == v
}

/// The slot that party `p` holds for the public value `v`: `v` in `slot`
/// of the party that keeps factor 0 there, one elsewhere.
pub open spec fn public_factor(p: int, slot: int, v: int) -> int {
    if p == slot { v } else { 1 }
}

impl MulFieldShare {
    /// The record of one.
    pub fn one() -> (r: MulFieldShare)
        ensures
            r.val0@ == 1,
            r.val1@ == 1,
    {
        MulFieldShare { val0: Scalar::one(), val1: Scalar::one() }
    }

    /// Party `party`'s record of the public value `f`; needs no message.
    pub fn from_public(party: usize, f: Scalar) -> (r: MulFieldShare)
        ensures
            r.val0@ == public_factor(party as int, 0, f@),
            r.val1@ == public_factor(party as int, 1, f@),
    {
        if party == 0 {
            MulFieldShare { val0: f, val1: Scalar::one() }
        } else if party == 1 {
            MulFieldShare { val0: Scalar::one(), val1: f }
        } else {
            MulFieldShare::one()
        }
    }

    /// Reconstructs the value from the three parties' records as received
    /// from the broadcast. Fails when the two products disagree.
    pub fn reconstruct(received: &[MulFieldShare; 3]) -> (r: Result<Scalar, ShareError>)
        ensures
            r is Ok <==> first_product(received@) == second_product(received@),
            r is Ok ==> r->Ok_0@ == first_product(received@),
            r is Err ==> r->Err_0 == ShareError::Inconsistent,
    {
        let s = received;
        let res0 = s[0].val0.mul(&s[1].val0).mul(&s[2].val0);
        let res1 = s[0].val1.mul(&s[1].val1).mul(&s[2].val1);
        proof {
            lemma_mul3_mod(s[0].val0@, s[1].val0@, s[2].val0@, modulus());
            lemma_mul3_mod(s[0].val1@, s[1].val1@, s[2].val1@, modulus());
        }
        if res0.equals(&res1) {
            Ok(res0)
        } else {
            Err(ShareError::Inconsistent)
        }
    }

    /// Reconstructs many values in one broadcast round: `received[p]` is the
    /// batch that party `p` sent. Fails when any value's products disagree.
    pub fn batch_open(received: &[Vec<MulFieldShare>; 3]) -> (r: Result<Vec<Scalar>, ShareError>)
        requires
            received[1].len() == received[0].len(),
            received[2].len() == received[0].len(),
        ensures
            r is Ok <==> forall|i: int| 0 <= i < received[0].len() ==>
                first_product(#[trigger] column(received[0]@, received[1]@, received[2]@, i))
                    == second_product(column(received[0]@, received[1]@, received[2]@, i)),
            r is Ok ==> r->Ok_0.len() == received[0].len(),
            r is Ok ==> forall|i: int| 0 <= i < received[0].len() ==> (#[trigger] r->Ok_0[i])@
                == first_product(column(received[0]@, received[1]@, received[2]@, i)),
            r is Err ==> r->Err_0 == ShareError::Inconsistent,
    {
        let n = received[0].len();
        let mut out: Vec<Scalar> = Vec::new();
        let mut i: usize = 0;
        while i < n
            invariant
                0 <= i <= n,
                n == received[0].len(),
                received[1].len() == n,
                received[2].len() == n,
                out.len() == i,
                forall|j: int| 0 <= j < i ==> first_product(#[trigger] column(received[0]@, received[1]@, received[2]@, j))
                    == second_product(column(received[0]@, received[1]@, received[2]@, j)),
                forall|j: int| 0 <= j < i ==> (#[trigger] out[j])@
                    == first_product(column(received[0]@, received[1]@, received[2]@, j)),
            decreases n - i,
        {
            let c = [received[0][i], received[1][i], received[2][i]];
            assert(c@ =~= column(received[0]@, received[1]@, received[2]@, i as int));
            match MulFieldShare::reconstruct(&c) {
                Ok(v) => {
                    out.push(v);
                },
                Err(e) => {
                    return Err(e);
                },
            }
            i = i + 1;
        }
        Ok(out)
    }

    /// Addition has no meaning in a multiplicative sharing: always fails and
    /// leaves the record as it was.
    pub fn add(&mut self, _other: &MulFieldShare) -> (r: Result<(), ShareError>)
        ensures
            r == Err::<(), ShareError>(ShareError::Unsupported),
            *final(self) == *old(self),
    {
        Err(ShareError::Unsupported)
    }

    /// Adding a public constant has no meaning in a multiplicative sharing:
    /// always fails and leaves the record as it was.
    pub fn shift(&mut self, _c: &Scalar) -> (r: Result<(), ShareError>)
        ensures
            r == Err::<(), ShareError>(ShareError::Unsupported),
            *final(self) == *old(self),
    {
        Err(ShareError::Unsupported)
    }

    /// A secret record is never trivially public: always fails.
    pub fn unwrap_as_public(&self) -> (r: Result<Scalar, ShareError>)
        ensures
            r == Err::<Scalar, ShareError>(ShareError::Unsupported),
    {
        Err(ShareError::Unsupported)
    }

    /// Multiplies the shared value by the public `k`: `k` joins factor 0,
    /// which party 0 keeps in its first slot and party 1 in its second.
    pub fn scale(&mut self, party: usize, k: &Scalar)
        ensures
            final(self).val0@ == (old(self).val0@ * public_factor(party as int, 0, k@)) % modulus(),
            final(self).val1@ == (old(self).val1@ * public_factor(party as int, 1, k@)) % modulus(),
    {
        proof {
            lemma_canonical(self.val0@, modulus());
            lemma_canonical(self.val1@, modulus());
        }
        if party == 0 {
            self.val0 = self.val0.mul(k);
        } else if party == 1 {
            self.val1 = self.val1.mul(k);
        }
    }

    /// Multiplies slot by slot; needs no message, as a product of products
    /// has no cross terms.
    pub fn mul(&self, other: &MulFieldShare) -> (r: MulFieldShare)
        ensures
            r.val0@ == (self.val0@ * other.val0@) % modulus(),
            r.val1@ == (self.val1@ * other.val1@) % modulus(),
    {
        MulFieldShare { val0: self.val0.mul(&other.val0), val1: self.val1.mul(&other.val1) }
    }

    /// `xs[i] · ys[i]` for every `i`.
    pub fn batch_mul(xs: &Vec<MulFieldShare>, ys: &Vec<MulFieldShare>) -> (r: Vec<MulFieldShare>)
        requires
            xs.len() == ys.len(),
        ensures
            r.len() == xs.len(),
            forall|i: int| 0 <= i < xs.len() ==> {
                &&& (#[trigger] r[i]).val0@ == (xs[i].val0@ * ys[i].val0@) % modulus()
                &&& r[i].val1@ == (xs[i].val1@ * ys[i].val1@) % modulus()
            },
    {
        let mut r: Vec<MulFieldShare> = Vec::new();
        let mut i: usize = 0;
        while i < xs.len()
            invariant
                0 <= i <= xs.len(),
                xs.len() == ys.len(),
                r.len() == i,
                forall|j: int| 0 <= j < i ==> {
                    &&& (#[trigger] r[j]).val0@ == (xs[j].val0@ * ys[j].val0@) % modulus()
                    &&& r[j].val1@ == (xs[j].val1@ * ys[j].val1@) % modulus()
                },
            decreases xs.len() - i,
        {
            r.push(xs[i].mul(&ys[i]));
            i = i + 1;
        }
        r
    }

    /// Inverts slot by slot; `None` when a slot is zero.
    pub fn inv(&self) -> (r: Option<MulFieldShare>)
        ensures
            r is Some <==> self.val0@ != 0 && self.val1@ != 0,
            r is Some ==> (self.val0@ * r->0.val0@) % modulus() == 1,
            r is Some ==> (self.val1@ * r->0.val1@) % modulus() == 1,
    {
        match (self.val0.inverse(), self.val1.inverse()) {
            (Some(a), Some(b)) => Some(MulFieldShare { val0: a, val1: b }),
            _ => None,
        }
    }

    /// Inverts every record; `None` when some slot is zero.
    pub fn batch_inv(xs: &Vec<MulFieldShare>) -> (r: Option<Vec<MulFieldShare>>)
        ensures
            r is Some <==> forall|i: int| 0 <= i < xs.len() ==> (#[trigger] xs[i]).val0@ != 0 && xs[i].val1@ != 0,
            r is Some ==> r->0.len() == xs.len(),
            r is Some ==> forall|i: int| 0 <= i < xs.len() ==> {
                &&& (xs[i].val0@ * (#[trigger] r->0[i]).val0@) % modulus() == 1
                &&& (xs[i].val1@ * r->0[i].val1@) % modulus() == 1
            },
    {
        let mut r: Vec<MulFieldShare> = Vec::new();
        let mut i: usize = 0;
        while i < xs.len()
            invariant
                0 <= i <= xs.len(),
                r.len() == i,
                forall|j: int| 0 <= j < i ==> (#[trigger] xs[j]).val0@ != 0 && xs[j].val1@ != 0,
                forall|j: int| 0 <= j < i ==> {
                    &&& (xs[j].val0@ * (#[trigger] r[j]).val0@) % modulus() == 1
                    &&& (xs[j].val1@ * r[j].val1@) % modulus() == 1
                },
            decreases xs.len() - i,
        {
            match xs[i].inv() {
                Some(y) => r.push(y),
                None => return None,
            }
            i = i + 1;
        }
        Some(r)
    }
}

/// In a multiplicative sharing the second slots hold the same factors as
/// the first, so reconstruction succeeds and yields the shared value.
pub proof fn lemma_mul_replicated_agree(s: Seq<MulFieldShare>, v: int)
    requires
        mul_shares_value(s, v),
    ensures
        first_product(s) == second_product(s),
{
    assert(s[0].val1@ == s[prev(0)].val0@);
    assert(s[1].val1@ == s[prev(1)].val0@);
    assert(s[2].val1@ == s[prev(2)].val0@);
    let (a0, a1, a2) = (s[0].val0@, s[1].val0@, s[2].val0@);
    assert(a2 * a0 * a1 == a0 * a1 * a2) by (nonlinear_arith);
}

/// Lifting a public value at each of the three parties gives a
/// multiplicative sharing of it, which reconstructs to it.
pub proof fn lemma_mul_public_reconstructs(s: Seq<MulFieldShare>, v: Scalar)
    requires
        s.len() == 3,
        forall|p: int| 0 <= p < 3 ==> (#[trigger] s[p]).val0@ == public_factor(p, 0, v@)
            && s[p].val1@ == public_factor(p, 1, v@),
    ensures
        mul_shares_value(s, v@),
        first_product(s) == second_product(s),
{
    assert(s[0].val1@ == s[prev(0)].val0@);
    assert(s[1].val1@ == s[prev(1)].val0@);
    assert(s[2].val1@ == s[prev(2)].val0@);
    assert(s[0].val0@ == v@ && s[1].val0@ == 1 && s[2].val0@ == 1);
    assert(s[0].val1@ == 1 && s[1].val1@ == v@ && s[2].val1@ == 1);
    assert(v@ * 1 * 1 == v@);
    assert(1 * v@ * 1 == v@);
    lemma_canonical(v@, modulus());
}

/// Multiplying two multiplicative sharings slot by slot at every party
/// shares the product.
pub proof fn lemma_mul_shares_product(x: Seq<MulFieldShare>, y: Seq<MulFieldShare>, z: Seq<MulFieldShare>, a: int, b: int)
    requires
        mul_shares_value(x, a),
        mul_shares_value(y, b),
        z.len() == 3,
        forall|p: int| 0 <= p < 3 ==> {
            &&& (#[trigger] z[p]).val0@ == (x[p].val0@ * y[p].val0@) % modulus()
            &&& z[p].val1@ == (x[p].val1@ * y[p].val1@) % modulus()
        },
    ensures
        mul_shares_value(z, (a * b) % modulus()),
        first_product(z) == second_product(z),
{
    let m = modulus();
    assert forall|p: int| 0 <= p < 3 implies #[trigger] z[p].val1@ == z[prev(p)].val0@ by {
        assert(x[p].val1@ == x[prev(p)].val0@);
        assert(y[p].val1@ == y[prev(p)].val0@);
        assert(z[prev(p)].val0@ == (x[prev(p)].val0@ * y[prev(p)].val0@) % m);
    }
    let (x0, x1, x2) = (x[0].val0@, x[1].val0@, x[2].val0@);
    let (y0, y1, y2) = (y[0].val0@, y[1].val0@, y[2].val0@);
    let (w0, w1, w2) = (x0 * y0, x1 * y1, x2 * y2);
    assert(z[0].val0@ == w0 % m && z[1].val0@ == w1 % m && z[2].val0@ == w2 % m);
    lemma_mul_mod(w0, w1, m);
    lemma_mul_mod(w0 * w1, w2, m);
    lemma_mul_mod((w0 % m) * (w1 % m), w2, m);
    lemma_mul_mod(x0 * x1 * x2, y0 * y1 * y2, m);
    assert(w0 * w1 * w2 == (x0 * x1 * x2) * (y0 * y1 * y2)) by (nonlinear_arith)
        requires
            w0 == x0 * y0,
            w1 == x1 * y1,
            w2 == x2 * y2,
    ;
    assert((w0 % m) * (w1 % m) * (w2 % m) % m == (w0 * w1 * w2) % m) by {
        lemma_mul_mod(w0 * w1, w2, m);
        lemma_mul_mod((w0 % m) * (w1 % m), w2, m);
        lemma_mul_mod(w0, w1, m);
    }
    lemma_mul_replicated_agree(z, (a * b) % m);
}

} // verus!
