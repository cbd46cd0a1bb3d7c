//! A group value that is either public or secret-shared.
use vstd::prelude::*;

use crate::field::Scalar;
use crate::group::{g1_scaled_of, G1Point};
use crate::rss3::RSS3FieldShare;
use crate::rss3_group::{group_first_total, group_second_total, scaled_part, RSS3GroupShare};
use crate::ShareError;

verus! {

/// A group element known to every party, or one party's share of it.
#[derive(Clone, Copy, Debug)]
pub enum MpcGroup<G, S> {
    Public(G),
    Shared(S),
}

/// A scalar known to every party, or one party's share of it.
#[derive(Clone, Copy, Debug)]
pub enum MpcField<F, S> {
    Public(F),
    Shared(S),
}

/// No element of `v` is public.
pub open spec fn none_public<G, S>(v: Seq<MpcGroup<G, S>>) -> bool {
    forall|i: int| 0 <= i < v.len() ==> #[trigger] v[i] is Shared
}

/// No element of `v` is shared.
pub open spec fn none_shared<G, S>(v: Seq<MpcGroup<G, S>>) -> bool {
    forall|i: int| 0 <= i < v.len() ==> #[trigger] v[i] is Public
}

impl<G: Copy, S: Copy> MpcGroup<G, S> {
    /// Whether this is a share rather than a public value.
    pub fn is_shared(&self) -> (r: bool)
        ensures
            r == self is Shared,
    {
        match self {
            MpcGroup::Shared(_) => true,
            MpcGroup::Public(_) => false,
        }
    }

    /// The public value; a share is not trivially public, so that fails.
    pub fn unwrap_as_public_or_add_shared(self) -> (r: Result<G, ShareError>)
        ensures
            self is Public ==> r == Ok::<G, ShareError>(self->Public_0),
            self is Shared ==> r == Err::<G, ShareError>(ShareError::Unsupported),
    {
        match self {
            MpcGroup::Public(p) => Ok(p),
            MpcGroup::Shared(_) => Err(ShareError::Unsupported),
        }
    }

    /// Splits a batch that is all public or all shared: `Ok` with the public
    /// values, or `Err` with the shares when there is at least one. A mixed
    /// batch is a caller error.
    pub fn all_public_or_shared(v: Vec<MpcGroup<G, S>>) -> (r: Result<Vec<G>, Vec<S>>)
        requires
            none_public(v@) || none_shared(v@),
        ensures
            none_shared(v@) ==> r is Ok && r->Ok_0@ == v@.map_values(|x: MpcGroup<G, S>| x->Public_0),
            !none_shared(v@) ==> r is Err && r->Err_0@ == v@.map_values(|x: MpcGroup<G, S>| x->Shared_0),
    {
        let mut out_a: Vec<G> = Vec::new();
        let mut out_b: Vec<S> = Vec::new();
        let mut i: usize = 0;
        while i < v.len()
            invariant
                0 <= i <= v.len(),
                none_public(v@) || none_shared(v@),
                none_shared(v@) ==> out_a@ == v@.take(i as int).map_values(|x: MpcGroup<G, S>| x->Public_0)
                    && out_b.len() == 0,
                none_public(v@) ==> out_b@ == v@.take(i as int).map_values(|x: MpcGroup<G, S>| x->Shared_0)
                    && out_a.len() == 0,
            decreases v.len() - i,
        {
            assert(v@.take(i + 1) =~= v@.take(i as int).push(v@[i as int]));
            match v[i] {
                MpcGroup::Public(x) => {
                    out_a.push(x);
                },
                MpcGroup::Shared(x) => {
                    out_b.push(x);
                },
            }
            assert(v@[i as int] is Public ==> out_a@ =~= v@.take(i + 1).map_values(|x: MpcGroup<G, S>| x->Public_0));
            assert(v@[i as int] is Shared ==> out_b@ =~= v@.take(i + 1).map_values(|x: MpcGroup<G, S>| x->Shared_0));
            i = i + 1;
        }
        assert(v@.take(v.len() as int) =~= v@);
        if out_b.len() > 0 {
            Err(out_b)
        } else {
            proof {
                if !none_shared(v@) {
                    let k = choose|k: int| 0 <= k < v.len() && !(#[trigger] v@[k] is Public);
                    assert(v@.map_values(|x: MpcGroup<G, S>| x->Shared_0).len() > 0);
                }
            }
            Ok(out_a)
        }
    }
}

impl MpcGroup<G1Point, RSS3GroupShare> {
    /// Turns a share into the public point that the three parties' records,
    /// as received from the broadcast, reconstruct to; a public value stays.
    pub fn publicize(&mut self, received: &[RSS3GroupShare; 3]) -> (r: Result<(), ShareError>)
        ensures
            (*old(self)) is Public ==> r is Ok && *final(self) == *old(self),
            (*old(self)) is Shared ==> (r is Ok <==> group_first_total(received@) == group_second_total(received@)),
            (*old(self)) is Shared && r is Ok ==> (*final(self)) is Public
                && (*final(self))->Public_0@ == group_first_total(received@),
            r is Err ==> r->Err_0 == ShareError::Inconsistent && *final(self) == *old(self),
    {
        if let MpcGroup::Shared(_) = self {
            match RSS3GroupShare::reconstruct(received) {
                Ok(p) => {
                    *self = MpcGroup::Public(p);
                    Ok(())
                },
                Err(e) => Err(e),
            }
        } else {
            Ok(())
        }
    }

    /// Multiplies by the scalar `k`. Every case but shared by shared is
    /// local and done here, returning `None`. For shared by shared this
    /// record is left as it is and the value to pass to the next party is
    /// returned; the result is then `RSS3GroupShare::scale_finish` of it and
    /// of what the previous party passed.
    pub fn mul_assign(&mut self, k: &MpcField<Scalar, RSS3FieldShare>) -> (r: Option<G1Point>)
        ensures
            match (*old(self), *k) {
                (MpcGroup::Public(x), MpcField::Public(y)) => r is None && (*final(self)) is Public
                    && (*final(self))->Public_0@ == g1_scaled_of(x@, y@),
                (MpcGroup::Public(x), MpcField::Shared(y)) => r is None && (*final(self)) is Shared
                    && (*final(self))->Shared_0.val0@ == g1_scaled_of(x@, y.val0@)
                    && (*final(self))->Shared_0.val1@ == g1_scaled_of(x@, y.val1@),
                (MpcGroup::Shared(x), MpcField::Public(y)) => r is None && (*final(self)) is Shared
                    && (*final(self))->Shared_0.val0@ == g1_scaled_of(x.val0@, y@)
                    && (*final(self))->Shared_0.val1@ == g1_scaled_of(x.val1@, y@),
                (MpcGroup::Shared(x), MpcField::Shared(y)) => r is Some && r->0@ == scaled_part(x, y)
                    && *final(self) == *old(self),
            },
    {
        match (*self, *k) {
            (MpcGroup::Public(x), MpcField::Public(y)) => {
                *self = MpcGroup::Public(x.scale(&y));
                None
            },
            (MpcGroup::Public(x), MpcField::Shared(y)) => {
                *self = MpcGroup::Shared(RSS3GroupShare::scale_pub_group(&x, &y));
                None
            },
            (MpcGroup::Shared(x), MpcField::Public(y)) => {
                let mut t = x;
                t.scale_pub_scalar(&y);
                *self = MpcGroup::Shared(t);
                None
            },
            (MpcGroup::Shared(x), MpcField::Shared(y)) => Some(x.scale_local(&y)),
        }
    }
}

} // verus!
