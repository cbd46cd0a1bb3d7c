//! The three-party replicated scheme over the G1 group: the same record
//! layout as for the scalar field, party `i` keeping `(A_i, A_{i-1})`.
use vstd::prelude::*;

use crate::field::Scalar;
use crate::group::{
    g1_difference_of, g1_identity, g1_msm_of, g1_scaled_of, g1_sum_of, point_models, G1Point, PointModel,
};
use crate::rss3::{column, RSS3FieldShare};
use crate::ShareError;

verus! {

/// One party's record of a G1 point shared under the replicated scheme.
#[derive(Clone, Copy, Debug)]
pub struct RSS3GroupShare {
    /// The summand this party contributes to the first total.
    pub val0: G1Point,
    /// The summand that the previous party keeps in its first slot.
    pub val1: G1Point,
}

/// `a + b + c`, added in that order onto the identity, as reconstruction does.
pub open spec fn point_total(a: PointModel, b: PointModel, c: PointModel) -> PointModel {
    g1_sum_of(g1_sum_of(g1_sum_of(g1_identity(), a), b), c)
}

/// The total of the first slots of three records.
pub open spec fn group_first_total(s: Seq<RSS3GroupShare>) -> PointModel {
    point_total(s[0].val0@, s[1].val0@, s[2].val0@)
}

/// The total of the second slots of three records.
pub open spec fn group_second_total(s: Seq<RSS3GroupShare>) -> PointModel {
    point_total(s[0].val1@, s[1].val1@, s[2].val1@)
}

/// The slot that party `p` holds for the public point `v`: `v` in
/// `slot` of the party that keeps summand 0 there, the identity elsewhere.
pub open spec fn public_point(p: int, slot: int, v: PointModel) -> PointModel {
    if p == slot { v } else { g1_identity() }
}

/// `s` is the king's split of `f` with mask points `r0` and `r1`.
pub open spec fn group_king_split(s: Seq<RSS3GroupShare>, f: PointModel, r0: PointModel, r1: PointModel) -> bool {
    let r2 = g1_difference_of(g1_difference_of(f, r0), r1);
    &&& s.len() == 3
    &&& s[0].val0@ == r0 && s[0].val1@ == r2
    &&& s[1].val0@ == r1 && s[1].val1@ == r0
    &&& s[2].val0@ == r2 && s[2].val1@ == r1
}

/// What a party sends after the local step of multiplying a shared point
/// `x` by a shared scalar `k`.
pub open spec fn scaled_part(x: RSS3GroupShare, k: RSS3FieldShare) -> PointModel {
    g1_sum_of(g1_scaled_of(x.val0@, (k.val0@ + k.val1@) % crate::field::modulus()), g1_scaled_of(x.val1@, k.val0@))
}

impl RSS3GroupShare {
    /// The record of the identity.
    pub fn zero() -> (r: RSS3GroupShare)
        ensures
            r.val0@ == g1_identity(),
            r.val1@ == g1_identity(),
    {
        RSS3GroupShare { val0: G1Point::zero(), val1: G1Point::zero() }
    }

    /// Party `party`'s record of the public point `f`; needs no message.
    pub fn from_public(party: usize, f: G1Point) -> (r: RSS3GroupShare)
        ensures
            r.val0@ == public_point(party as int, 0, f@),
            r.val1@ == public_point(party as int, 1, f@),
    {
        if party == 0 {
            RSS3GroupShare { val0: f, val1: G1Point::zero() }
        } else if party == 1 {
            RSS3GroupShare { val0: G1Point::zero(), val1: f }
        } else {
            RSS3GroupShare::zero()
        }
    }

    /// Reconstructs the point from the three parties' records as received
    /// from the broadcast. Fails when the two totals disagree.
    pub fn reconstruct(received: &[RSS3GroupShare; 3]) -> (r: Result<G1Point, ShareError>)
        ensures
            r is Ok <==> group_first_total(received@) == group_second_total(received@),
            r is Ok ==> r->Ok_0@ == group_first_total(received@),
            r is Err ==> r->Err_0 == ShareError::Inconsistent,
    {
        let s = received;
        let res0 = G1Point::zero().add(&s[0].val0).add(&s[1].val0).add(&s[2].val0);
        let res1 = G1Point::zero().add(&s[0].val1).add(&s[1].val1).add(&s[2].val1);
        if res0.equals(&res1) {
            Ok(res0)
        } else {
            Err(ShareError::Inconsistent)
        }
    }

    /// Reconstructs many points in one broadcast round: `received[p]` is the
    /// batch that party `p` sent. Fails when any point's totals disagree.
    pub fn batch_open(received: &[Vec<RSS3GroupShare>; 3]) -> (r: Result<Vec<G1Point>, ShareError>)
        requires
            received[1].len() == received[0].len(),
            received[2].len() == received[0].len(),
        ensures
            r is Ok <==> forall|i: int| 0 <= i < received[0].len() ==>
                group_first_total(#[trigger] column(received[0]@, received[1]@, received[2]@, i))
                    == group_second_total(column(received[0]@, received[1]@, received[2]@, i)),
            r is Ok ==> r->Ok_0.len() == received[0].len(),
            r is Ok ==> forall|i: int| 0 <= i < received[0].len() ==> (#[trigger] r->Ok_0[i])@
                == group_first_total(column(received[0]@, received[1]@, received[2]@, i)),
            r is Err ==> r->Err_0 == ShareError::Inconsistent,
    {
        let n = received[0].len();
        let mut out: Vec<G1Point> = Vec::new();
        let mut i: usize = 0;
        while i < n
            invariant
                0 <= i <= n,
                n == received[0].len(),
                received[1].len() == n,
                received[2].len() == n,
                out.len() == i,
                forall|j: int| 0 <= j < i ==> group_first_total(#[trigger] column(received[0]@, received[1]@, received[2]@, j))
                    == group_second_total(column(received[0]@, received[1]@, received[2]@, j)),
                forall|j: int| 0 <= j < i ==> (#[trigger] out[j])@
                    == group_first_total(column(received[0]@, received[1]@, received[2]@, j)),
            decreases n - i,
        {
            let c = [received[0][i], received[1][i], received[2][i]];
            assert(c@ =~= column(received[0]@, received[1]@, received[2]@, i as int));
            match RSS3GroupShare::reconstruct(&c) {
                Ok(v) => {
                    out.push(v);
                },
                Err(e) => {
                    return Err(e);
                },
            }
            i = i + 1;
        }
        Ok(out)
    }

    /// The king's split of `f` with the random mask points `r0` and `r1`:
    /// the records to send to parties 0, 1 and 2.
    pub fn king_share(f: &G1Point, r0: &G1Point, r1: &G1Point) -> (r: [RSS3GroupShare; 3])
        ensures
            group_king_split(r@, f@, r0@, r1@),
    {
        let r2 = f.sub(r0).sub(r1);
        [
            RSS3GroupShare { val0: *r0, val1: r2 },
            RSS3GroupShare { val0: *r1, val1: *r0 },
            RSS3GroupShare { val0: r2, val1: *r1 },
        ]
    }

    /// The king's split of each point of `fs` with masks `masks0[i]` and
    /// `masks1[i]`: the batches to send to parties 0, 1 and 2.
    pub fn king_share_batch(fs: &Vec<G1Point>, masks0: &Vec<G1Point>, masks1: &Vec<G1Point>) -> (r: [Vec<RSS3GroupShare>; 3])
        requires
            masks0.len() == fs.len(),
            masks1.len() == fs.len(),
        ensures
            r[0].len() == fs.len(),
            r[1].len() == fs.len(),
            r[2].len() == fs.len(),
            forall|i: int| 0 <= i < fs.len() ==> group_king_split(
                #[trigger] column(r[0]@, r[1]@, r[2]@, i), fs[i]@, masks0[i]@, masks1[i]@),
    {
        let mut b0: Vec<RSS3GroupShare> = Vec::new();
        let mut b1: Vec<RSS3GroupShare> = Vec::new();
        let mut b2: Vec<RSS3GroupShare> = Vec::new();
        let mut i: usize = 0;
        while i < fs.len()
            invariant
                0 <= i <= fs.len(),
                masks0.len() == fs.len(),
                masks1.len() == fs.len(),
                b0.len() == i,
                b1.len() == i,
                b2.len() == i,
                forall|j: int| 0 <= j < i ==> group_king_split(
                    #[trigger] column(b0@, b1@, b2@, j), fs[j]@, masks0[j]@, masks1[j]@),
            decreases fs.len() - i,
        {
            let s = RSS3GroupShare::king_share(&fs[i], &masks0[i], &masks1[i]);
            let ghost (o0, o1, o2) = (b0@, b1@, b2@);
            b0.push(s[0]);
            b1.push(s[1]);
            b2.push(s[2]);
            assert(column(b0@, b1@, b2@, i as int) =~= s@);
            assert forall|j: int| 0 <= j < i implies #[trigger] column(b0@, b1@, b2@, j) == column(o0, o1, o2, j) by {
                assert(column(b0@, b1@, b2@, j) =~= column(o0, o1, o2, j));
            }
            i = i + 1;
        }
        let r = [b0, b1, b2];
        assert(r[0]@ == b0@ && r[1]@ == b1@ && r[2]@ == b2@);
        assert forall|j: int| 0 <= j < fs.len() implies #[trigger] column(r[0]@, r[1]@, r[2]@, j)
            == column(b0@, b1@, b2@, j) by {}
        r
    }

    /// A secret record is never trivially public: always fails.
    pub fn unwrap_as_public(&self) -> (r: Result<G1Point, ShareError>)
        ensures
            r == Err::<G1Point, ShareError>(ShareError::Unsupported),
    {
        Err(ShareError::Unsupported)
    }

    /// Adds `other` slot by slot; needs no message.
    pub fn add(&mut self, other: &RSS3GroupShare)
        ensures
            final(self).val0@ == g1_sum_of(old(self).val0@, other.val0@),
            final(self).val1@ == g1_sum_of(old(self).val1@, other.val1@),
    {
        self.val0 = self.val0.add(&other.val0);
        self.val1 = self.val1.add(&other.val1);
    }

    /// Subtracts `other` slot by slot; needs no message.
    pub fn sub(&mut self, other: &RSS3GroupShare)
        ensures
            final(self).val0@ == g1_difference_of(old(self).val0@, other.val0@),
            final(self).val1@ == g1_difference_of(old(self).val1@, other.val1@),
    {
        self.val0 = self.val0.sub(&other.val0);
        self.val1 = self.val1.sub(&other.val1);
    }

    /// Multiplies both slots by the public scalar `k`; needs no message.
    pub fn scale_pub_scalar(&mut self, k: &Scalar)
        ensures
            final(self).val0@ == g1_scaled_of(old(self).val0@, k@),
            final(self).val1@ == g1_scaled_of(old(self).val1@, k@),
    {
        self.val0 = self.val0.scale(k);
        self.val1 = self.val1.scale(k);
    }

    /// The record of `k · base` for a public `base` and a shared scalar `k`:
    /// each slot is `base` scaled by the matching slot of `k`. Needs no
    /// message, as only one operand is secret.
    pub fn scale_pub_group(base: &G1Point, k: &RSS3FieldShare) -> (r: RSS3GroupShare)
        ensures
            r.val0@ == g1_scaled_of(base@, k.val0@),
            r.val1@ == g1_scaled_of(base@, k.val1@),
    {
        RSS3GroupShare { val0: base.scale(&k.val0), val1: base.scale(&k.val1) }
    }

    /// Adds the public point `c` to summand 0, which party 0 keeps in its
    /// first slot and party 1 in its second.
    pub fn shift(&mut self, party: usize, c: &G1Point)
        ensures
            party == 0 ==> final(self).val0@ == g1_sum_of(old(self).val0@, c@) && final(self).val1 == old(self).val1,
            party == 1 ==> final(self).val1@ == g1_sum_of(old(self).val1@, c@) && final(self).val0 == old(self).val0,
            party != 0 && party != 1 ==> *final(self) == *old(self),
    {
        if party == 0 {
            self.val0 = self.val0.add(c);
        } else if party == 1 {
            self.val1 = self.val1.add(c);
        }
    }

    /// The local step of multiplying this shared point by the shared scalar
    /// `k`: the point this party passes to the next one. No Beaver triple is
    /// needed.
    pub fn scale_local(&self, k: &RSS3FieldShare) -> (z0: G1Point)
        ensures
            z0@ == scaled_part(*self, *k),
    {
        let t0 = self.val0.scale(&k.val0.add(&k.val1));
        let t1 = self.val1.scale(&k.val0);
        t0.add(&t1)
    }

    /// The finishing step: `z0` as computed here, `z1` as received from the
    /// previous party.
    pub fn scale_finish(z0: G1Point, z1: G1Point) -> (r: RSS3GroupShare)
        ensures
            r.val0 == z0,
            r.val1 == z1,
    {
        RSS3GroupShare { val0: z0, val1: z1 }
    }

    /// The record of `Σ scalars[i] · bases[i]` for public bases and shared
    /// scalars: one multi-scalar multiplication per slot.
    pub fn multi_scale_pub_group(bases: &Vec<G1Point>, scalars: &Vec<RSS3FieldShare>) -> (r: RSS3GroupShare)
        ensures
            r.val0@ == g1_msm_of(point_models(bases@), crate::rss3::first_slots(scalars@)),
            r.val1@ == g1_msm_of(point_models(bases@), crate::rss3::second_slots(scalars@)),
    {
        let mut s0: Vec<Scalar> = Vec::new();
        let mut s1: Vec<Scalar> = Vec::new();
        let mut i: usize = 0;
        while i < scalars.len()
            invariant
                0 <= i <= scalars.len(),
                s0.len() == i,
                s1.len() == i,
                forall|j: int| 0 <= j < i ==> s0[j] == (#[trigger] scalars[j]).val0 && s1[j] == scalars[j].val1,
            decreases scalars.len() - i,
        {
            s0.push(scalars[i].val0);
            s1.push(scalars[i].val1);
            i = i + 1;
        }
        assert forall|j: int| 0 <= j < scalars.len() implies #[trigger] crate::field::scalar_values(s0@)[j]
            == crate::rss3::first_slots(scalars@)[j] && crate::field::scalar_values(s1@)[j]
            == crate::rss3::second_slots(scalars@)[j] by {
            assert(s0[j] == scalars[j].val0);
        }
        assert(crate::field::scalar_values(s0@) =~= crate::rss3::first_slots(scalars@));
        assert(crate::field::scalar_values(s1@) =~= crate::rss3::second_slots(scalars@));
        RSS3GroupShare { val0: G1Point::msm(bases, &s0), val1: G1Point::msm(bases, &s1) }
    }

    /// The two slots, first then second.
    pub fn unwrap_as_public_vec(&self) -> (r: Vec<G1Point>)
        ensures
            r@ == seq![self.val0, self.val1],
    {
        let r = vec![self.val0, self.val1];
        assert(r@ =~= seq![self.val0, self.val1]);
        r
    }

    /// The record whose slots are the first two points of `vals`.
    pub fn from_add_shared_vec(vals: &Vec<G1Point>) -> (r: RSS3GroupShare)
        requires
            vals.len() >= 2,
        ensures
            r.val0 == vals[0],
            r.val1 == vals[1],
    {
        RSS3GroupShare { val0: vals[0], val1: vals[1] }
    }
}

} // verus!
