//! Beaver triple sources for scaling shared points by shared scalars: a
//! triple is `(x, y, z = y · x)` with `x`, `z` points and `y` a scalar.
use vstd::prelude::*;

use crate::additive::{AdditiveFieldShare, AdditiveGroupShare};
use crate::field::{modulus, Scalar};
use crate::group::{g1_identity, g1_scaled_of, G1Point};
use crate::rss3::{column, first_total, is_replicated, king_split, RSS3FieldShare};
use crate::rss3_group::{group_king_split, RSS3GroupShare};

verus! {

/// One party's share of a triple.
#[derive(Clone, Copy, Debug)]
pub struct GroupTriple {
    pub x: RSS3GroupShare,
    pub y: RSS3FieldShare,
    pub z: RSS3GroupShare,
}

/// The random masks the king draws to split one triple.
#[derive(Clone, Copy, Debug)]
pub struct TripleMasks {
    pub x: (G1Point, G1Point),
    pub y: (Scalar, Scalar),
    pub z: (G1Point, G1Point),
}

/// `t` holds the king's splits of `x`, `y` and `y · x` with masks `m`.
pub open spec fn dealt_triple(t: Seq<GroupTriple>, x: G1Point, y: Scalar, m: TripleMasks) -> bool {
    &&& t.len() == 3
    &&& group_king_split(t.map_values(|u: GroupTriple| u.x), x@, m.x.0@, m.x.1@)
    &&& king_split(t.map_values(|u: GroupTriple| u.y), y, m.y.0, m.y.1)
    &&& group_king_split(t.map_values(|u: GroupTriple| u.z), g1_scaled_of(x@, y@), m.z.0@, m.z.1@)
}

/// Triples dealt by the king from plaintext values it draws.
pub struct DealerGroupTripleSource;

impl DealerGroupTripleSource {
    /// The king's shares of the triple built from the random point `x` and
    /// scalar `y`: the records to send to parties 0, 1 and 2.
    pub fn triple(x: &G1Point, y: &Scalar, masks: &TripleMasks) -> (r: [GroupTriple; 3])
        ensures
            dealt_triple(r@, *x, *y, *masks),
    {
        let z = x.scale(y);
        let xs = RSS3GroupShare::king_share(x, &masks.x.0, &masks.x.1);
        let ys = RSS3FieldShare::king_share(y, &masks.y.0, &masks.y.1);
        let zs = RSS3GroupShare::king_share(&z, &masks.z.0, &masks.z.1);
        let r = [
            GroupTriple { x: xs[0], y: ys[0], z: zs[0] },
            GroupTriple { x: xs[1], y: ys[1], z: zs[1] },
            GroupTriple { x: xs[2], y: ys[2], z: zs[2] },
        ];
        assert(r@.map_values(|u: GroupTriple| u.x) =~= xs@);
        assert(r@.map_values(|u: GroupTriple| u.y) =~= ys@);
        assert(r@.map_values(|u: GroupTriple| u.z) =~= zs@);
        r
    }

    /// The king's shares of `n` triples, triple `i` built from `xs[i]`,
    /// `ys[i]` and masked with `masks[i]`: the batches for parties 0, 1, 2.
    pub fn triples(xs: &Vec<G1Point>, ys: &Vec<Scalar>, masks: &Vec<TripleMasks>) -> (r: [Vec<GroupTriple>; 3])
        requires
            ys.len() == xs.len(),
            masks.len() == xs.len(),
        ensures
            r[0].len() == xs.len(),
            r[1].len() == xs.len(),
            r[2].len() == xs.len(),
            forall|i: int| 0 <= i < xs.len() ==> dealt_triple(
                #[trigger] column(r[0]@, r[1]@, r[2]@, i), xs[i], ys[i], masks[i]),
    {
        let mut b0: Vec<GroupTriple> = Vec::new();
        let mut b1: Vec<GroupTriple> = Vec::new();
        let mut b2: Vec<GroupTriple> = Vec::new();
        let mut i: usize = 0;
        while i < xs.len()
            invariant
                0 <= i <= xs.len(),
                ys.len() == xs.len(),
                masks.len() == xs.len(),
                b0.len() == i,
                b1.len() == i,
                b2.len() == i,
                forall|j: int| 0 <= j < i ==> dealt_triple(
                    #[trigger] column(b0@, b1@, b2@, j), xs[j], ys[j], masks[j]),
            decreases xs.len() - i,
        {
            let t = DealerGroupTripleSource::triple(&xs[i], &ys[i], &masks[i]);
            let ghost (o0, o1, o2) = (b0@, b1@, b2@);
            b0.push(t[0]);
            b1.push(t[1]);
            b2.push(t[2]);
            assert(column(b0@, b1@, b2@, i as int) =~= t@);
            assert forall|j: int| 0 <= j < i implies #[trigger] column(b0@, b1@, b2@, j) == column(o0, o1, o2, j) by {
                assert(column(b0@, b1@, b2@, j) =~= column(o0, o1, o2, j));
            }
            i = i + 1;
        }
        let r = [b0, b1, b2];
        assert(r[0]@ == b0@ && r[1]@ == b1@ && r[2]@ == b2@);
        assert forall|j: int| 0 <= j < xs.len() implies #[trigger] column(r[0]@, r[1]@, r[2]@, j)
            == column(b0@, b1@, b2@, j) by {}
        r
    }

    /// The king's shares of the pair `(x, 1/x)` for the random scalar `x`,
    /// masked with `m0` and `m1`: the records for parties 0, 1 and 2.
    /// `None` when `x` is zero, which has no inverse.
    pub fn inv_pair(x: &Scalar, m0: (Scalar, Scalar), m1: (Scalar, Scalar)) -> (r: Option<[(RSS3FieldShare, RSS3FieldShare); 3]>)
        ensures
            r is Some <==> x@ != 0,
            r is Some ==> king_split(r->0@.map_values(|u: (RSS3FieldShare, RSS3FieldShare)| u.0), *x, m0.0, m0.1),
            r is Some ==> {
                let inv = r->0@.map_values(|u: (RSS3FieldShare, RSS3FieldShare)| u.1);
                &&& is_replicated(inv)
                &&& (x@ * first_total(inv)) % modulus() == 1
                &&& inv[0].val0 == m1.0
                &&& inv[1].val0 == m1.1
            },
    {
        match x.inverse() {
            None => None,
            Some(inv) => {
                let a = RSS3FieldShare::king_share(x, &m0.0, &m0.1);
                let b = RSS3FieldShare::king_share(&inv, &m1.0, &m1.1);
                let r = [(a[0], b[0]), (a[1], b[1]), (a[2], b[2])];
                assert(r@.map_values(|u: (RSS3FieldShare, RSS3FieldShare)| u.0) =~= a@);
                assert(r@.map_values(|u: (RSS3FieldShare, RSS3FieldShare)| u.1) =~= b@);
                Some(r)
            },
        }
    }
}

/// A placeholder source for code paths that never multiply: it yields the
/// triple `(0, 1, 0)` without any message, the king contributing the one.
pub struct DummyGroupTripleSource;

impl DummyGroupTripleSource {
    /// This party's additive share of the triple `(0, 1, 0)`.
    pub fn triple(am_king: bool) -> (r: (AdditiveGroupShare, AdditiveFieldShare, AdditiveGroupShare))
        ensures
            r.0.val@ == g1_identity(),
            r.1.val@ == (if am_king { 1int } else { 0 }),
            r.2.val@ == g1_identity(),
    {
        let y = if am_king { Scalar::one() } else { Scalar::zero() };
        (AdditiveGroupShare { val: G1Point::zero() }, AdditiveFieldShare { val: y }, AdditiveGroupShare { val: G1Point::zero() })
    }

    /// This party's additive share of the pair `(1, 1)`.
    pub fn inv_pair(am_king: bool) -> (r: (AdditiveFieldShare, AdditiveFieldShare))
        ensures
            r.0.val@ == (if am_king { 1int } else { 0 }),
            r.1.val@ == (if am_king { 1int } else { 0 }),
    {
        let y = if am_king { Scalar::one() } else { Scalar::zero() };
        (AdditiveFieldShare { val: y }, AdditiveFieldShare { val: y })
    }
}

} // verus!
