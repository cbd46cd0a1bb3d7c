//! Structural share conversion: a value built from one scheme's records is
//! re-expressed, leaf by leaf, in another scheme's records, with the same
//! shape and the same public data.
//!
//! A replicated record converts to the additive summand it already
//! contributes to the first total, so the conversion is local, needs no
//! message and reveals nothing.
use vstd::prelude::*;

use crate::additive::{additive_total, AdditiveFieldShare, AdditiveGroupShare};
use crate::group::PointModel;
use crate::rss3::{shares_value, RSS3FieldShare};
use crate::rss3_group::RSS3GroupShare;

use std::marker::PhantomData;
use std::rc::Rc;

verus! {

/// What one party contributes at one leaf of a structure.
pub ghost enum Leaf {
    /// Its summand of a shared scalar.
    Field(int),
    /// Its summand of a shared point.
    Point(PointModel),
    /// Public data, the same at every party (a length, a tag, a number).
    Public(int),
}

/// A structure whose leaves can be listed in a fixed traversal order.
pub trait ShareLeaves {
    /// This party's contribution at each leaf, in traversal order.
    spec fn leaves(&self) -> Seq<Leaf>;
}

/// Re-expresses a structure in another scheme's records.
pub trait ShareConversion: Sized + ShareLeaves {
    type Target: ShareLeaves;

    /// Converts every leaf, keeping this party's contribution at each one
    /// and the public data as they are.
    fn share_conversion(self) -> (r: Self::Target)
        ensures
            r.leaves() == self.leaves(),
    ;
}

/// The leaves of each element in turn.
pub open spec fn concat_leaves<T: ShareLeaves>(s: Seq<T>) -> Seq<Leaf>
    decreases s.len(),
{
    if s.len() == 0 {
        Seq::empty()
    } else {
        concat_leaves(s.drop_last()) + s.last().leaves()
    }
}

impl ShareLeaves for RSS3FieldShare {
    open spec fn leaves(&self) -> Seq<Leaf> {
        seq![Leaf::Field(self.val0@)]
    }
}

impl ShareLeaves for AdditiveFieldShare {
    open spec fn leaves(&self) -> Seq<Leaf> {
        seq![Leaf::Field(self.val@)]
    }
}

impl ShareConversion for RSS3FieldShare {
    type Target = AdditiveFieldShare;

    fn share_conversion(self) -> (r: AdditiveFieldShare) {
        AdditiveFieldShare { val: self.val0 }
    }
}

impl ShareLeaves for RSS3GroupShare {
    open spec fn leaves(&self) -> Seq<Leaf> {
        seq![Leaf::Point(self.val0@)]
    }
}

impl ShareLeaves for AdditiveGroupShare {
    open spec fn leaves(&self) -> Seq<Leaf> {
        seq![Leaf::Point(self.val@)]
    }
}

impl ShareConversion for RSS3GroupShare {
    type Target = AdditiveGroupShare;

    fn share_conversion(self) -> (r: AdditiveGroupShare) {
        AdditiveGroupShare { val: self.val0 }
    }
}

impl ShareLeaves for usize {
    open spec fn leaves(&self) -> Seq<Leaf> {
        seq![Leaf::Public(*self as int)]
    }
}

impl ShareConversion for usize {
    type Target = usize;

    fn share_conversion(self) -> (r: usize) {
        self
    }
}

impl<T: ShareLeaves> ShareLeaves for PhantomData<T> {
    open spec fn leaves(&self) -> Seq<Leaf> {
        Seq::empty()
    }
}

impl<T: ShareConversion> ShareConversion for PhantomData<T> {
    type Target = PhantomData<T::Target>;

    fn share_conversion(self) -> (r: PhantomData<T::Target>) {
        PhantomData
    }
}

impl<T: ShareLeaves> ShareLeaves for Option<T> {
    open spec fn leaves(&self) -> Seq<Leaf> {
        match self {
            None => seq![Leaf::Public(0)],
            Some(x) => seq![Leaf::Public(1)] + x.leaves(),
        }
    }
}

impl<T: ShareConversion> ShareConversion for Option<T> {
    type Target = Option<T::Target>;

    fn share_conversion(self) -> (r: Option<T::Target>) {
        match self {
            None => None,
            Some(x) => Some(x.share_conversion()),
        }
    }
}

impl<A: ShareLeaves, B: ShareLeaves> ShareLeaves for (A, B) {
    open spec fn leaves(&self) -> Seq<Leaf> {
        self.0.leaves() + self.1.leaves()
    }
}

impl<A: ShareConversion, B: ShareConversion> ShareConversion for (A, B) {
    type Target = (A::Target, B::Target);

    fn share_conversion(self) -> (r: (A::Target, B::Target)) {
        let (a, b) = self;
        (a.share_conversion(), b.share_conversion())
    }
}

impl<T: ShareLeaves> ShareLeaves for Vec<T> {
    open spec fn leaves(&self) -> Seq<Leaf> {
        seq![Leaf::Public(self.len() as int)] + concat_leaves(self@)
    }
}

impl<T: ShareConversion> ShareConversion for Vec<T> {
    type Target = Vec<T::Target>;

    fn share_conversion(self) -> (r: Vec<T::Target>) {
        let ghost orig = self@;
        let n = self.len();
        let mut src = self;
        let mut rev: Vec<T> = Vec::new();
        while src.len() > 0
            invariant
                n == orig.len(),
                src@ == orig.take(src.len() as int),
                rev.len() + src.len() == n,
                forall|j: int| 0 <= j < rev.len() ==> #[trigger] rev@[j] == orig[n - 1 - j],
            decreases src.len(),
        {
            let x = src.pop().unwrap();
            rev.push(x);
            assert(orig.take(src.len() as int) =~= orig.take(src.len() + 1).drop_last());
        }
        let mut out: Vec<T::Target> = Vec::new();
        while rev.len() > 0
            invariant
                n == orig.len(),
                rev.len() + out.len() == n,
                forall|j: int| 0 <= j < rev.len() ==> #[trigger] rev@[j] == orig[n - 1 - j],
                concat_leaves(out@) == concat_leaves(orig.take(out.len() as int)),
            decreases rev.len(),
        {
            let k = out.len();
            let x = rev.pop().unwrap();
            assert(x == orig[k as int]);
            let ghost prev_out = out@;
            out.push(x.share_conversion());
            assert(out@.drop_last() =~= prev_out);
            assert(orig.take(k + 1).drop_last() =~= orig.take(k as int));
        }
        assert(orig.take(n as int) =~= orig);
        out
    }
}

impl<T: ShareLeaves> ShareLeaves for Rc<T> {
    open spec fn leaves(&self) -> Seq<Leaf> {
        (**self).leaves()
    }
}

/// A shared node is converted once and re-wrapped; its contents are copied
/// out, so the node itself stays valid for its other owners.
impl<T: ShareConversion + Copy> ShareConversion for Rc<T> {
    type Target = Rc<T::Target>;

    fn share_conversion(self) -> (r: Rc<T::Target>) {
        let t: T = *self;
        Rc::new(t.share_conversion())
    }
}

/// Converting each party's record of a replicated sharing of `v` gives
/// additive summands that add up to `v`: conversion keeps the value that
/// reconstruction yields.
pub proof fn lemma_converted_reconstructs(s: Seq<RSS3FieldShare>, t: Seq<AdditiveFieldShare>, v: int)
    requires
        shares_value(s, v),
        t.len() == 3,
        forall|p: int| 0 <= p < 3 ==> (#[trigger] t[p]).leaves() == s[p].leaves(),
    ensures
        additive_total(t) == v,
{
    assert(t[0].leaves()[0] == s[0].leaves()[0]);
    assert(t[1].leaves()[0] == s[1].leaves()[0]);
    assert(t[2].leaves()[0] == s[2].leaves()[0]);
}

} // verus!
