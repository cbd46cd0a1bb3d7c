//! Points of the BLS12-377 G1 group in affine form, held as the canonical
//! limbs of their coordinates. The group law is computed by arkworks.
use vstd::prelude::*;

use crate::field::{scalar_values, Scalar};

use ark_bls12_377::{Fq, G1Affine};
use ark_ec::msm::VariableBaseMSM;
use ark_ec::{AffineCurve, ProjectiveCurve};
use ark_ff::{BigInteger256, BigInteger384, PrimeField};

verus! {

/// The order of the BLS12-377 base field.
pub open spec fn base_modulus() -> int {
    (9586122913090633729 + 18446744073709551616 * (1660523435060625408
        + 18446744073709551616 * (2230234197602682880
        + 18446744073709551616 * (1883307231910630287
        + 18446744073709551616 * (14284016967150029115
        + 18446744073709551616 * 121098312706494698))))) as int
}

/// The integer that six little-endian 64-bit limbs stand for.
pub open spec fn limbs6_value(l: Seq<u64>) -> int {
    l[0] as int + 18446744073709551616 * (l[1] as int + 18446744073709551616 * (l[2] as int
        + 18446744073709551616 * (l[3] as int + 18446744073709551616 * (l[4] as int
        + 18446744073709551616 * l[5] as int))))
}

/// A point as the coordinate limbs and the infinity flag.
pub type PointModel = (Seq<u64>, Seq<u64>, bool);

/// What arkworks' G1 addition gives for two points.
pub uninterp spec fn g1_sum_of(p: PointModel, q: PointModel) -> PointModel;

/// What arkworks' G1 subtraction gives for two points.
pub uninterp spec fn g1_difference_of(p: PointModel, q: PointModel) -> PointModel;

/// What arkworks' G1 scalar multiplication gives for a point and a scalar.
pub uninterp spec fn g1_scaled_of(p: PointModel, k: int) -> PointModel;

/// What arkworks' G1 multi-scalar multiplication gives for bases and scalars.
pub uninterp spec fn g1_msm_of(bases: Seq<PointModel>, scalars: Seq<int>) -> PointModel;

/// The point at infinity as arkworks writes it in affine form.
pub open spec fn g1_identity() -> PointModel {
    (seq![0u64, 0, 0, 0, 0, 0], seq![1u64, 0, 0, 0, 0, 0], true)
}

/// A G1 point in affine form; both coordinates are canonical.
#[derive(Clone, Copy, Debug)]
pub struct G1Point {
    x: [u64; 6],
    y: [u64; 6],
    infinity: bool,
}

impl View for G1Point {
    type V = PointModel;

    closed spec fn view(&self) -> PointModel {
        (self.x@, self.y@, self.infinity)
    }
}

/// The points' models, in order.
pub open spec fn point_models(s: Seq<G1Point>) -> Seq<PointModel> {
    s.map_values(|p: G1Point| p@)
}

impl G1Point {
    #[verifier::type_invariant]
    spec fn canonical(self) -> bool {
        &&& self.x@.len() == 6
        &&& self.y@.len() == 6
        &&& limbs6_value(self.x@) < base_modulus()
        &&& limbs6_value(self.y@) < base_modulus()
    }

    /// The point at infinity.
    pub fn zero() -> (r: G1Point)
        ensures
            r@ == g1_identity(),
    {
        let r = G1Point { x: [0, 0, 0, 0, 0, 0], y: [1, 0, 0, 0, 0, 0], infinity: true };
        assert(r@.0 =~= g1_identity().0);
        assert(r@.1 =~= g1_identity().1);
        r
    }

    /// The point with these coordinate limbs, if both are canonical.
    pub fn from_coords(x: [u64; 6], y: [u64; 6], infinity: bool) -> (r: Option<G1Point>)
        ensures
            r is Some <==> (limbs6_value(x@) < base_modulus() && limbs6_value(y@) < base_modulus()),
            r is Some ==> r->0@ == (x@, y@, infinity),
    {
        if below_base_modulus(&x) && below_base_modulus(&y) {
            Some(G1Point { x, y, infinity })
        } else {
            None
        }
    }

    pub fn x_limbs(&self) -> (r: [u64; 6])
        ensures
            r@ == self@.0,
    {
        self.x
    }

    pub fn y_limbs(&self) -> (r: [u64; 6])
        ensures
            r@ == self@.1,
    {
        self.y
    }

    pub fn is_infinity(&self) -> (r: bool)
        ensures
            r == self@.2,
    {
        self.infinity
    }

    /// Whether the two points have the same coordinates and flag.
    pub fn equals(&self, o: &G1Point) -> (r: bool)
        ensures
            r == (self@ == o@),
    {
        proof {
            use_type_invariant(self);
            use_type_invariant(o);
        }
        if self.infinity != o.infinity {
            return false;
        }
        let mut i: usize = 0;
        while i < 6
            invariant
                0 <= i <= 6,
                self.x@.len() == 6,
                o.x@.len() == 6,
                self.y@.len() == 6,
                o.y@.len() == 6,
                forall|j: int| 0 <= j < i ==> self.x@[j] == o.x@[j] && self.y@[j] == o.y@[j],
            decreases 6 - i,
        {
            if self.x[i] != o.x[i] || self.y[i] != o.y[i] {
                return false;
            }
            i = i + 1;
        }
        assert(self.x@ =~= o.x@);
        assert(self.y@ =~= o.y@);
        true
    }

    /// `self + o`.
    pub fn add(&self, o: &G1Point) -> (r: G1Point)
        ensures
            r@ == g1_sum_of(self@, o@),
    {
        g1_add(self, o)
    }

    /// `self - o`.
    pub fn sub(&self, o: &G1Point) -> (r: G1Point)
        ensures
            r@ == g1_difference_of(self@, o@),
    {
        g1_sub(self, o)
    }

    /// `k · self`.
    pub fn scale(&self, k: &Scalar) -> (r: G1Point)
        ensures
            r@ == g1_scaled_of(self@, k@),
    {
        g1_scale(self, k)
    }

    /// `Σ scalars[i] · bases[i]`.
    pub fn msm(bases: &Vec<G1Point>, scalars: &Vec<Scalar>) -> (r: G1Point)
        ensures
            r@ == g1_msm_of(point_models(bases@), scalar_values(scalars@)),
    {
        g1_msm(bases, scalars)
    }
}

fn below_base_modulus(l: &[u64; 6]) -> (r: bool)
    ensures
        r == (limbs6_value(l@) < base_modulus()),
{
    let m: [u64; 6] = [
        9586122913090633729,
        1660523435060625408,
        2230234197602682880,
        1883307231910630287,
        14284016967150029115,
        121098312706494698,
    ];
    assert(base_modulus() == limbs6_value(m@));
    if l[5] != m[5] {
        l[5] < m[5]
    } else if l[4] != m[4] {
        l[4] < m[4]
    } else if l[3] != m[3] {
        l[3] < m[3]
    } else if l[2] != m[2] {
        l[2] < m[2]
    } else if l[1] != m[1] {
        l[1] < m[1]
    } else {
        l[0] < m[0]
    }
}

/// Relies on `Add` of arkworks' short Weierstrass affine points, here for
/// BLS12-377 G1; the result is normalised to affine form.
#[verifier::external_body]
fn g1_add(a: &G1Point, b: &G1Point) -> (r: G1Point)
    ensures
        r@ == g1_sum_of(a@, b@),
{
    let f = |l: [u64; 6]| Fq::from_repr(BigInteger384(l)).unwrap();
    let p = G1Affine::new(f(a.x), f(a.y), a.infinity);
    let q = G1Affine::new(f(b.x), f(b.y), b.infinity);
    let s = p + q;
    G1Point { x: s.x.into_repr().0, y: s.y.into_repr().0, infinity: s.infinity }
}

/// Relies on `Sub` of arkworks' short Weierstrass projective points, here for
/// BLS12-377 G1; the result is normalised to affine form.
#[verifier::external_body]
fn g1_sub(a: &G1Point, b: &G1Point) -> (r: G1Point)
    ensures
        r@ == g1_difference_of(a@, b@),
{
    let f = |l: [u64; 6]| Fq::from_repr(BigInteger384(l)).unwrap();
    let p = G1Affine::new(f(a.x), f(a.y), a.infinity).into_projective();
    let q = G1Affine::new(f(b.x), f(b.y), b.infinity).into_projective();
    let s = (p - q).into_affine();
    G1Point { x: s.x.into_repr().0, y: s.y.into_repr().0, infinity: s.infinity }
}

/// Relies on `AffineCurve::mul` of arkworks for BLS12-377 G1, with the
/// scalar's canonical integer; the result is normalised to affine form.
#[verifier::external_body]
fn g1_scale(a: &G1Point, k: &Scalar) -> (r: G1Point)
    ensures
        r@ == g1_scaled_of(a@, k@),
{
    let f = |l: [u64; 6]| Fq::from_repr(BigInteger384(l)).unwrap();
    let p = G1Affine::new(f(a.x), f(a.y), a.infinity);
    let s = AffineCurve::mul(&p, BigInteger256(k.limbs)).into_affine();
    G1Point { x: s.x.into_repr().0, y: s.y.into_repr().0, infinity: s.infinity }
}

/// Relies on `VariableBaseMSM::multi_scalar_mul` of arkworks for BLS12-377
/// G1, with the scalars' canonical integers; the result is normalised to
/// affine form.
#[verifier::external_body]
fn g1_msm(bases: &Vec<G1Point>, scalars: &Vec<Scalar>) -> (r: G1Point)
    ensures
        r@ == g1_msm_of(point_models(bases@), scalar_values(scalars@)),
{
    let f = |l: [u64; 6]| Fq::from_repr(BigInteger384(l)).unwrap();
    let ps: Vec<G1Affine> = bases.iter().map(|a| G1Affine::new(f(a.x), f(a.y), a.infinity)).collect();
    let ks: Vec<BigInteger256> = scalars.iter().map(|k| BigInteger256(k.limbs)).collect();
    let s = VariableBaseMSM::multi_scalar_mul(&ps, &ks).into_affine();
    G1Point { x: s.x.into_repr().0, y: s.y.into_repr().0, infinity: s.infinity }
}

} // verus!
