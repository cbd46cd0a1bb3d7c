use ark_bls12_377::{Fq, Fr, G1Affine, G1Projective};
use ark_ec::{AffineCurve, ProjectiveCurve};
use ark_ff::{BigInteger256, BigInteger384, PrimeField, UniformRand};
use mpc_algebra::additive::{AdditiveFieldShare, AdditiveGroupShare};
use mpc_algebra::conversion::ShareConversion;
use mpc_algebra::field::Scalar;
use mpc_algebra::group::G1Point;
use mpc_algebra::rss3::RSS3FieldShare;
use mpc_algebra::rss3_group::RSS3GroupShare;
use mpc_algebra::triples::{DealerGroupTripleSource, DummyGroupTripleSource, TripleMasks};
use mpc_algebra::wire::{MpcField, MpcGroup};
use mpc_algebra::ShareError;

fn to_fr(s: &Scalar) -> Fr {
    Fr::from_repr(BigInteger256(s.to_limbs())).unwrap()
}

fn from_fr(f: Fr) -> Scalar {
    Scalar::from_limbs(f.into_repr().0).unwrap()
}

fn from_affine(p: G1Affine) -> G1Point {
    G1Point::from_coords(p.x.into_repr().0, p.y.into_repr().0, p.infinity).unwrap()
}

fn to_affine(p: &G1Point) -> G1Affine {
    let f = |l: [u64; 6]| Fq::from_repr(BigInteger384(l)).unwrap();
    G1Affine::new(f(p.x_limbs()), f(p.y_limbs()), p.is_infinity())
}

fn rand_point<R: rand::Rng>(rng: &mut R) -> G1Point {
    from_affine(G1Projective::rand(rng).into_affine())
}

fn share_scalar<R: rand::Rng>(v: Fr, rng: &mut R) -> [RSS3FieldShare; 3] {
    RSS3FieldShare::king_share(&from_fr(v), &from_fr(Fr::rand(rng)), &from_fr(Fr::rand(rng)))
}

fn share_point<R: rand::Rng>(v: &G1Point, rng: &mut R) -> [RSS3GroupShare; 3] {
    let r0 = rand_point(rng);
    let r1 = rand_point(rng);
    RSS3GroupShare::king_share(v, &r0, &r1)
}

fn scale_shared(x: &[RSS3GroupShare; 3], k: &[RSS3FieldShare; 3]) -> [RSS3GroupShare; 3] {
    let z: Vec<G1Point> = (0..3).map(|p| x[p].scale_local(&k[p])).collect();
    [
        RSS3GroupShare::scale_finish(z[0], z[2]),
        RSS3GroupShare::scale_finish(z[1], z[0]),
        RSS3GroupShare::scale_finish(z[2], z[1]),
    ]
}

#[test]
fn point_arithmetic_matches_arkworks() {
    let rng = &mut ark_std::test_rng();
    let a = G1Projective::rand(rng).into_affine();
    let b = G1Projective::rand(rng).into_affine();
    let k = Fr::rand(rng);
    let (pa, pb) = (from_affine(a), from_affine(b));
    assert_eq!(to_affine(&pa.add(&pb)), (a.into_projective() + b.into_projective()).into_affine());
    assert_eq!(to_affine(&pa.sub(&pb)), (a.into_projective() - b.into_projective()).into_affine());
    assert_eq!(to_affine(&pa.scale(&from_fr(k))), a.mul(k).into_affine());
    let msm = G1Point::msm(&vec![pa, pb], &vec![from_fr(k), Scalar::from_u64(2)]);
    let expected = a.mul(k) + b.mul(Fr::from(2u64));
    assert_eq!(to_affine(&msm), expected.into_affine());
    assert!(pa.equals(&pa) && !pa.equals(&pb));
    assert!(G1Point::zero().is_infinity());
    assert_eq!(to_affine(&G1Point::zero()), G1Affine::default());
}

#[test]
fn coordinates_at_or_above_modulus_are_rejected() {
    let q = [9586122913090633729u64, 1660523435060625408, 2230234197602682880, 1883307231910630287, 14284016967150029115, 121098312706494698];
    assert!(G1Point::from_coords(q, [0; 6], false).is_none());
    assert!(G1Point::from_coords([0; 6], q, false).is_none());
    let mut below = q;
    below[0] -= 1;
    assert!(G1Point::from_coords(below, below, false).is_some());
}

#[test]
fn public_point_reconstructs() {
    let rng = &mut ark_std::test_rng();
    let v = rand_point(rng);
    let s = [0, 1, 2].map(|p| RSS3GroupShare::from_public(p, v));
    assert!(RSS3GroupShare::reconstruct(&s).unwrap().equals(&v));
    let k = share_point(&v, rng);
    assert!(RSS3GroupShare::reconstruct(&k).unwrap().equals(&v));
}

#[test]
fn point_sum_and_shift_reconstruct() {
    let rng = &mut ark_std::test_rng();
    let a = rand_point(rng);
    let b = rand_point(rng);
    let c = rand_point(rng);
    let mut x = share_point(&a, rng);
    let y = share_point(&b, rng);
    for p in 0..3 {
        x[p].add(&y[p]);
    }
    assert_eq!(to_affine(&RSS3GroupShare::reconstruct(&x).unwrap()), (to_affine(&a) + to_affine(&b)));
    for p in 0..3 {
        x[p].sub(&y[p]);
        x[p].shift(p, &c);
    }
    assert_eq!(to_affine(&RSS3GroupShare::reconstruct(&x).unwrap()), (to_affine(&a) + to_affine(&c)));
    let k = Fr::rand(rng);
    for p in 0..3 {
        x[p].scale_pub_scalar(&from_fr(k));
    }
    let expected = (to_affine(&a).into_projective() + to_affine(&c).into_projective()).into_affine().mul(k);
    assert_eq!(to_affine(&RSS3GroupShare::reconstruct(&x).unwrap()), expected.into_affine());
}

#[test]
fn public_base_times_shared_scalar() {
    let rng = &mut ark_std::test_rng();
    let g = G1Affine::prime_subgroup_generator();
    for _ in 0..2 {
        let a = Fr::rand(rng);
        let b = Fr::rand(rng);
        let sa = share_scalar(a, rng);
        let sb = share_scalar(b, rng);
        let ga: Vec<RSS3GroupShare> = (0..3).map(|p| RSS3GroupShare::scale_pub_group(&from_affine(g), &sa[p])).collect();
        assert_eq!(to_affine(&RSS3GroupShare::reconstruct(&[ga[0], ga[1], ga[2]]).unwrap()), g.mul(a).into_affine());
        let bases = vec![from_affine(g), from_affine(g)];
        let msm: Vec<RSS3GroupShare> = (0..3)
            .map(|p| RSS3GroupShare::multi_scale_pub_group(&bases, &vec![sa[p], sb[p]]))
            .collect();
        assert_eq!(to_affine(&RSS3GroupShare::reconstruct(&[msm[0], msm[1], msm[2]]).unwrap()), g.mul(a + b).into_affine());
    }
}

#[test]
fn double_scalar_consistency() {
    let rng = &mut ark_std::test_rng();
    let g = G1Affine::prime_subgroup_generator();
    let a = Fr::rand(rng);
    let b = Fr::rand(rng);
    let sa = share_scalar(a, rng);
    let sb = share_scalar(b, rng);
    let ga = [0, 1, 2].map(|p| RSS3GroupShare::scale_pub_group(&from_affine(g), &sa[p]));
    let gab = scale_shared(&ga, &sb);
    let expected = g.mul(a).into_affine().mul(b).into_affine();
    assert_eq!(to_affine(&RSS3GroupShare::reconstruct(&gab).unwrap()), expected);
}

#[test]
fn corrupted_point_broadcast_is_detected() {
    let rng = &mut ark_std::test_rng();
    let v = rand_point(rng);
    let mut s = share_point(&v, rng);
    s[2].val1 = rand_point(rng);
    assert_eq!(RSS3GroupShare::reconstruct(&s).err(), Some(ShareError::Inconsistent));
    let good = share_point(&v, rng);
    let batch = [vec![good[0], s[0]], vec![good[1], s[1]], vec![good[2], s[2]]];
    assert_eq!(RSS3GroupShare::batch_open(&batch).err(), Some(ShareError::Inconsistent));
    let batch = [vec![good[0]], vec![good[1]], vec![good[2]]];
    assert!(RSS3GroupShare::batch_open(&batch).unwrap()[0].equals(&v));
}

#[test]
fn point_batch_sharing_reconstructs() {
    let rng = &mut ark_std::test_rng();
    let fs: Vec<G1Point> = (0..4).map(|_| rand_point(rng)).collect();
    let m0: Vec<G1Point> = (0..4).map(|_| rand_point(rng)).collect();
    let m1: Vec<G1Point> = (0..4).map(|_| rand_point(rng)).collect();
    let b = RSS3GroupShare::king_share_batch(&fs, &m0, &m1);
    let opened = RSS3GroupShare::batch_open(&b).unwrap();
    for i in 0..4 {
        assert!(opened[i].equals(&fs[i]));
    }
    let v = b[0][1].unwrap_as_public_vec();
    let back = RSS3GroupShare::from_add_shared_vec(&v);
    assert!(back.val0.equals(&b[0][1].val0) && back.val1.equals(&b[0][1].val1));
    assert_eq!(b[0][0].unwrap_as_public().err(), Some(ShareError::Unsupported));
}

#[test]
fn dealer_triple_is_a_product() {
    let rng = &mut ark_std::test_rng();
    let x = rand_point(rng);
    let y = Fr::rand(rng);
    let masks = TripleMasks {
        x: (rand_point(rng), rand_point(rng)),
        y: (from_fr(Fr::rand(rng)), from_fr(Fr::rand(rng))),
        z: (rand_point(rng), rand_point(rng)),
    };
    let t = DealerGroupTripleSource::triple(&x, &from_fr(y), &masks);
    let xv = RSS3GroupShare::reconstruct(&[t[0].x, t[1].x, t[2].x]).unwrap();
    let yv = RSS3FieldShare::reconstruct(&[t[0].y, t[1].y, t[2].y]).unwrap();
    let zv = RSS3GroupShare::reconstruct(&[t[0].z, t[1].z, t[2].z]).unwrap();
    assert!(xv.equals(&x));
    assert_eq!(to_fr(&yv), y);
    assert_eq!(to_affine(&zv), to_affine(&x).mul(y).into_affine());
    let ts = DealerGroupTripleSource::triples(&vec![x, x], &vec![from_fr(y), Scalar::one()], &vec![masks, masks]);
    let z1 = RSS3GroupShare::reconstruct(&[ts[0][1].z, ts[1][1].z, ts[2][1].z]).unwrap();
    assert!(z1.equals(&x));
}

#[test]
fn dealer_inverse_pair() {
    let rng = &mut ark_std::test_rng();
    let x = Fr::rand(rng);
    let m = || (from_fr(Fr::rand(&mut ark_std::test_rng())), Scalar::from_u64(9));
    let pairs = DealerGroupTripleSource::inv_pair(&from_fr(x), m(), m()).unwrap();
    let a = RSS3FieldShare::reconstruct(&[pairs[0].0, pairs[1].0, pairs[2].0]).unwrap();
    let b = RSS3FieldShare::reconstruct(&[pairs[0].1, pairs[1].1, pairs[2].1]).unwrap();
    assert_eq!(to_fr(&a) * to_fr(&b), Fr::from(1u64));
    assert!(DealerGroupTripleSource::inv_pair(&Scalar::zero(), m(), m()).is_none());
}

#[test]
fn dummy_triple_is_zero_one_zero() {
    let king = DummyGroupTripleSource::triple(true);
    let other = DummyGroupTripleSource::triple(false);
    assert!(king.0.val.is_infinity() && king.2.val.is_infinity());
    let y = AdditiveFieldShare::reconstruct(&[king.1, other.1, other.1]);
    assert_eq!(y.to_limbs(), [1, 0, 0, 0]);
    let (a, b) = DummyGroupTripleSource::inv_pair(true);
    let (c, d) = DummyGroupTripleSource::inv_pair(false);
    assert_eq!(AdditiveFieldShare::reconstruct(&[a, c, c]).to_limbs(), [1, 0, 0, 0]);
    assert_eq!(AdditiveFieldShare::reconstruct(&[b, d, d]).to_limbs(), [1, 0, 0, 0]);
    let x = AdditiveGroupShare::reconstruct(&[king.0, other.0, other.0]);
    assert!(x.is_infinity());
}

#[test]
fn conversion_keeps_every_leaf_value() {
    let rng = &mut ark_std::test_rng();
    let vals: Vec<Fr> = (0..3).map(|_| Fr::rand(rng)).collect();
    let shared: Vec<[RSS3FieldShare; 3]> = vals.iter().map(|v| share_scalar(*v, rng)).collect();
    let point = rand_point(rng);
    let shared_point = share_point(&point, rng);
    let mut converted = Vec::new();
    for p in 0..3 {
        let leaves: Vec<Option<(RSS3FieldShare, usize)>> =
            vec![Some((shared[0][p], 7)), None, Some((shared[1][p], 8)), Some((shared[2][p], 9))];
        let nested = (leaves, (shared_point[p], 42usize));
        converted.push(nested.share_conversion());
    }
    for (i, slot) in [(0usize, 0usize), (2, 1), (3, 2)] {
        let parts: Vec<AdditiveFieldShare> = (0..3).map(|p| converted[p].0[i].unwrap().0).collect();
        let v = AdditiveFieldShare::reconstruct(&[parts[0], parts[1], parts[2]]);
        assert_eq!(to_fr(&v), vals[slot]);
        assert_eq!(to_fr(&v), to_fr(&RSS3FieldShare::reconstruct(&shared[slot]).unwrap()));
        assert_eq!(converted[0].0[i].unwrap().1, [7, 0, 8, 9][i]);
    }
    assert!(converted[1].0[1].is_none());
    assert_eq!(converted[2].1 .1, 42);
    let g = AdditiveGroupShare::reconstruct(&[converted[0].1 .0, converted[1].1 .0, converted[2].1 .0]);
    assert!(g.equals(&point));
}

#[test]
fn mixed_public_and_shared_values() {
    let rng = &mut ark_std::test_rng();
    let v = rand_point(rng);
    let s = share_point(&v, rng);
    let publics: Vec<MpcGroup<G1Point, RSS3GroupShare>> = vec![MpcGroup::Public(v), MpcGroup::Public(v)];
    let shares: Vec<MpcGroup<G1Point, RSS3GroupShare>> = vec![MpcGroup::Shared(s[0]), MpcGroup::Shared(s[1])];
    match MpcGroup::all_public_or_shared(publics.clone()) {
        Ok(ps) => assert!(ps.len() == 2 && ps[1].equals(&v)),
        Err(_) => panic!("expected public values"),
    }
    match MpcGroup::all_public_or_shared(shares.clone()) {
        Ok(_) => panic!("expected shares"),
        Err(ss) => assert!(ss.len() == 2 && ss[1].val0.equals(&s[1].val0)),
    }
    assert!(MpcGroup::<G1Point, RSS3GroupShare>::all_public_or_shared(vec![]).unwrap().is_empty());
    assert!(shares[0].is_shared() && !publics[0].is_shared());
    assert!(publics[0].unwrap_as_public_or_add_shared().unwrap().equals(&v));
    assert_eq!(shares[0].unwrap_as_public_or_add_shared().err(), Some(ShareError::Unsupported));
    let mut m = MpcGroup::<G1Point, RSS3GroupShare>::Shared(s[0]);
    m.publicize(&s).unwrap();
    match m {
        MpcGroup::Public(p) => assert!(p.equals(&v)),
        MpcGroup::Shared(_) => panic!("still shared"),
    }
    let mut bad = s;
    bad[0].val0 = rand_point(rng);
    let mut m = MpcGroup::<G1Point, RSS3GroupShare>::Shared(s[0]);
    assert_eq!(m.publicize(&bad), Err(ShareError::Inconsistent));
    assert!(m.is_shared());
}

#[test]
fn group_value_times_scalar_value() {
    let rng = &mut ark_std::test_rng();
    let g = G1Affine::prime_subgroup_generator();
    let a = Fr::rand(rng);
    let b = Fr::rand(rng);
    let mut m = MpcGroup::<G1Point, RSS3GroupShare>::Public(from_affine(g));
    assert!(m.mul_assign(&MpcField::Public(from_fr(a))).is_none());
    match m {
        MpcGroup::Public(p) => assert_eq!(to_affine(&p), g.mul(a).into_affine()),
        MpcGroup::Shared(_) => panic!("expected a public point"),
    }
    let sb = share_scalar(b, rng);
    let mut parts: Vec<MpcGroup<G1Point, RSS3GroupShare>> = (0..3).map(|_| MpcGroup::Public(from_affine(g))).collect();
    for p in 0..3 {
        assert!(parts[p].mul_assign(&MpcField::Shared(sb[p])).is_none());
        assert!(parts[p].mul_assign(&MpcField::Public(from_fr(a))).is_none());
    }
    let recs: Vec<RSS3GroupShare> = parts
        .iter()
        .map(|m| match m {
            MpcGroup::Shared(s) => *s,
            MpcGroup::Public(_) => panic!("expected a share"),
        })
        .collect();
    let v = RSS3GroupShare::reconstruct(&[recs[0], recs[1], recs[2]]).unwrap();
    assert_eq!(to_affine(&v), g.mul(a * b).into_affine());
    let sa = share_scalar(a, rng);
    let z: Vec<G1Point> = (0..3).map(|p| parts[p].mul_assign(&MpcField::Shared(sa[p])).unwrap()).collect();
    let fin = [
        RSS3GroupShare::scale_finish(z[0], z[2]),
        RSS3GroupShare::scale_finish(z[1], z[0]),
        RSS3GroupShare::scale_finish(z[2], z[1]),
    ];
    let v = RSS3GroupShare::reconstruct(&fin).unwrap();
    assert_eq!(to_affine(&v), g.mul(a * b * a).into_affine());
}
