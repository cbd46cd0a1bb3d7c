//! The plain three-party additive scheme: each party holds one summand and a
//! value is the sum of the three. It is the target of share conversion.
use vstd::prelude::*;

use crate::field::{modulus, Scalar};
use crate::group::G1Point;
use crate::modular::lemma_add3_mod;
use crate::rss3_group::point_total;

verus! {

/// One party's additive summand of a shared scalar.
#[derive(Clone, Copy, Debug)]
pub struct AdditiveFieldShare {
    pub val: Scalar,
}

/// One party's additive summand of a shared G1 point.
#[derive(Clone, Copy, Debug)]
pub struct AdditiveGroupShare {
    pub val: G1Point,
}

/// The sum of three parties' summands.
pub open spec fn additive_total(s: Seq<AdditiveFieldShare>) -> int {
    (s[0].val@ + s[1].val@ + s[2].val@) % modulus()
}

impl AdditiveFieldShare {
    /// Reconstructs the value from the three parties' summands.
    pub fn reconstruct(received: &[AdditiveFieldShare; 3]) -> (r: Scalar)
        ensures
            r@ == additive_total(received@),
    {
        let s = received;
        proof {
            lemma_add3_mod(s[0].val@, s[1].val@, s[2].val@, modulus());
        }
        s[0].val.add(&s[1].val).add(&s[2].val)
    }
}

impl AdditiveGroupShare {
    /// Reconstructs the point from the three parties' summands.
    pub fn reconstruct(received: &[AdditiveGroupShare; 3]) -> (r: G1Point)
        ensures
            r@ == point_total(received[0].val@, received[1].val@, received[2].val@),
    {
        let s = received;
        G1Point::zero().add(&s[0].val).add(&s[1].val).add(&s[2].val)
    }
}

} // verus!
