use ark_bls12_377::Fr;
use ark_ff::{BigInteger256, Field, One, PrimeField, UniformRand, Zero};
use mpc_algebra::field::Scalar;
use mpc_algebra::mul_share::MulFieldShare;
use mpc_algebra::poly::{has_nonzero_coeff, Poly};
use mpc_algebra::rss3::{RSS3FieldShare, SharedPoly};
use mpc_algebra::ShareError;

fn to_fr(s: &Scalar) -> Fr {
    Fr::from_repr(BigInteger256(s.to_limbs())).unwrap()
}

fn from_fr(f: Fr) -> Scalar {
    Scalar::from_limbs(f.into_repr().0).unwrap()
}

fn rand_scalar<R: rand::Rng>(rng: &mut R) -> Scalar {
    from_fr(Fr::rand(rng))
}

fn share(v: &Scalar, rng: &mut impl rand::Rng) -> [RSS3FieldShare; 3] {
    let r0 = rand_scalar(rng);
    let r1 = rand_scalar(rng);
    RSS3FieldShare::king_share(v, &r0, &r1)
}

fn multiply(x: &[RSS3FieldShare; 3], y: &[RSS3FieldShare; 3]) -> [RSS3FieldShare; 3] {
    let z: Vec<Scalar> = (0..3).map(|p| x[p].mul_local(&y[p])).collect();
    [
        RSS3FieldShare::mul_finish(z[0], z[2]),
        RSS3FieldShare::mul_finish(z[1], z[0]),
        RSS3FieldShare::mul_finish(z[2], z[1]),
    ]
}

#[test]
fn scalar_arithmetic_matches_arkworks() {
    let rng = &mut ark_std::test_rng();
    for _ in 0..5 {
        let a = Fr::rand(rng);
        let b = Fr::rand(rng);
        let (sa, sb) = (from_fr(a), from_fr(b));
        assert_eq!(to_fr(&sa.add(&sb)), a + b);
        assert_eq!(to_fr(&sa.sub(&sb)), a - b);
        assert_eq!(to_fr(&sa.mul(&sb)), a * b);
        assert_eq!(to_fr(&sa.inverse().unwrap()), a.inverse().unwrap());
        assert!(sa.equals(&sa));
        assert!(!sa.equals(&sb));
    }
    assert_eq!(Scalar::from_u64(7).add(&Scalar::from_u64(5)).to_limbs(), [12, 0, 0, 0]);
    assert_eq!(Scalar::from_u64(7).mul(&Scalar::from_u64(5)).to_limbs(), [35, 0, 0, 0]);
    assert_eq!(to_fr(&Scalar::from_u64(2).sub(&Scalar::from_u64(5))), -Fr::from(3u64));
    assert!(Scalar::zero().inverse().is_none());
}

#[test]
fn limbs_at_or_above_modulus_are_rejected() {
    let modulus = [725501752471715841u64, 6461107452199829505, 6968279316240510977, 1345280370688173398];
    assert!(Scalar::from_limbs(modulus).is_none());
    let mut below = modulus;
    below[0] -= 1;
    assert_eq!(to_fr(&Scalar::from_limbs(below).unwrap()), -Fr::one());
    assert!(Scalar::from_limbs([u64::MAX; 4]).is_none());
}

#[test]
fn public_value_reconstructs() {
    let rng = &mut ark_std::test_rng();
    for v in [Scalar::zero(), Scalar::one(), rand_scalar(rng), rand_scalar(rng)] {
        let s = [
            RSS3FieldShare::from_public(0, v),
            RSS3FieldShare::from_public(1, v),
            RSS3FieldShare::from_public(2, v),
        ];
        assert!(RSS3FieldShare::reconstruct(&s).unwrap().equals(&v));
    }
}

#[test]
fn king_share_reconstructs() {
    let rng = &mut ark_std::test_rng();
    let v = rand_scalar(rng);
    let s = share(&v, rng);
    assert!(s[1].val1.equals(&s[0].val0));
    assert!(s[2].val1.equals(&s[1].val0));
    assert!(s[0].val1.equals(&s[2].val0));
    assert!(RSS3FieldShare::reconstruct(&s).unwrap().equals(&v));
}

#[test]
fn sum_reconstructs_to_sum() {
    let rng = &mut ark_std::test_rng();
    for _ in 0..3 {
        let a = Fr::rand(rng);
        let b = Fr::rand(rng);
        let mut x = share(&from_fr(a), rng);
        let y = share(&from_fr(b), rng);
        for p in 0..3 {
            x[p].add(&y[p]);
        }
        let opened = RSS3FieldShare::reconstruct(&x).unwrap();
        assert_eq!(to_fr(&opened), a + b);
    }
}

#[test]
fn difference_and_scaling_reconstruct() {
    let rng = &mut ark_std::test_rng();
    let a = Fr::rand(rng);
    let b = Fr::rand(rng);
    let k = Fr::rand(rng);
    let mut x = share(&from_fr(a), rng);
    let y = share(&from_fr(b), rng);
    for p in 0..3 {
        x[p].sub(&y[p]);
        x[p].scale(&from_fr(k));
    }
    assert_eq!(to_fr(&RSS3FieldShare::reconstruct(&x).unwrap()), (a - b) * k);
}

#[test]
fn shift_adds_public_constant_once() {
    let rng = &mut ark_std::test_rng();
    let a = Fr::rand(rng);
    let c = Fr::from(10u64);
    let mut x = share(&from_fr(a), rng);
    for p in 0..3 {
        x[p].shift(p, &from_fr(c));
    }
    assert_eq!(to_fr(&RSS3FieldShare::reconstruct(&x).unwrap()), a + c);
}

#[test]
fn product_reconstructs_to_product() {
    let rng = &mut ark_std::test_rng();
    for _ in 0..3 {
        let a = Fr::rand(rng);
        let b = Fr::rand(rng);
        let x = share(&from_fr(a), rng);
        let y = share(&from_fr(b), rng);
        let z = multiply(&x, &y);
        assert_eq!(to_fr(&RSS3FieldShare::reconstruct(&z).unwrap()), a * b);
    }
    let six = multiply(
        &[0, 1, 2].map(|p| RSS3FieldShare::from_public(p, Scalar::from_u64(2))),
        &[0, 1, 2].map(|p| RSS3FieldShare::from_public(p, Scalar::from_u64(3))),
    );
    assert_eq!(RSS3FieldShare::reconstruct(&six).unwrap().to_limbs(), [6, 0, 0, 0]);
}

#[test]
fn inner_product_of_random_vectors() {
    let rng = &mut ark_std::test_rng();
    for _ in 0..4 {
        let a: Vec<Fr> = (0..100).map(|_| Fr::rand(rng)).collect();
        let b: Vec<Fr> = (0..100).map(|_| Fr::rand(rng)).collect();
        let expected = a.iter().zip(&b).fold(Fr::zero(), |acc, (x, y)| acc + *x * y);
        let mut acc = [0, 1, 2].map(|p| RSS3FieldShare::from_public(p, Scalar::zero()));
        for i in 0..100 {
            let z = multiply(&share(&from_fr(a[i]), rng), &share(&from_fr(b[i]), rng));
            for p in 0..3 {
                acc[p].add(&z[p]);
            }
        }
        assert_eq!(to_fr(&RSS3FieldShare::reconstruct(&acc).unwrap()), expected);
    }
}

#[test]
fn batch_multiplication_and_opening() {
    let rng = &mut ark_std::test_rng();
    let a: Vec<Fr> = (0..10).map(|_| Fr::rand(rng)).collect();
    let b: Vec<Fr> = (0..10).map(|_| Fr::rand(rng)).collect();
    let m0: Vec<Scalar> = (0..10).map(|_| rand_scalar(rng)).collect();
    let m1: Vec<Scalar> = (0..10).map(|_| rand_scalar(rng)).collect();
    let xs = RSS3FieldShare::king_share_batch(&a.iter().map(|v| from_fr(*v)).collect(), &m0, &m1);
    let ys = RSS3FieldShare::king_share_batch(&b.iter().map(|v| from_fr(*v)).collect(), &m1, &m0);
    let z0s: Vec<Vec<Scalar>> = (0..3).map(|p| RSS3FieldShare::batch_mul_local(&xs[p], &ys[p])).collect();
    let zs = [
        RSS3FieldShare::batch_mul_finish(&z0s[0], &z0s[2]),
        RSS3FieldShare::batch_mul_finish(&z0s[1], &z0s[0]),
        RSS3FieldShare::batch_mul_finish(&z0s[2], &z0s[1]),
    ];
    let opened = RSS3FieldShare::batch_open(&zs).unwrap();
    assert_eq!(opened.len(), 10);
    for i in 0..10 {
        assert_eq!(to_fr(&opened[i]), a[i] * b[i]);
    }
    let plain = RSS3FieldShare::batch_open(&xs).unwrap();
    for i in 0..10 {
        assert_eq!(to_fr(&plain[i]), a[i]);
    }
}

#[test]
fn corrupted_broadcast_is_detected() {
    let rng = &mut ark_std::test_rng();
    let v = rand_scalar(rng);
    let s = share(&v, rng);
    for party in 0..3 {
        let mut bad = s;
        bad[party].val0 = bad[party].val0.add(&Scalar::one());
        assert_eq!(RSS3FieldShare::reconstruct(&bad).err(), Some(ShareError::Inconsistent));
        let mut bad = s;
        bad[party].val1 = rand_scalar(rng);
        assert_eq!(RSS3FieldShare::reconstruct(&bad).err(), Some(ShareError::Inconsistent));
    }
    let mut batch = [vec![s[0], s[0]], vec![s[1], s[1]], vec![s[2], s[2]]];
    batch[2][1].val0 = Scalar::from_u64(5);
    assert_eq!(RSS3FieldShare::batch_open(&batch).err(), Some(ShareError::Inconsistent));
}

#[test]
fn secret_record_is_not_public() {
    let s = RSS3FieldShare::from_public(0, Scalar::one());
    assert_eq!(s.unwrap_as_public().err(), Some(ShareError::Unsupported));
}

fn coef(v: &Vec<RSS3FieldShare>, i: usize) -> RSS3FieldShare {
    v.get(i).copied().unwrap_or(RSS3FieldShare::zero())
}

#[test]
fn division_by_public_polynomial() {
    // (x^2 + 3x + 2) / (x + 1) = x + 2, remainder 0; then (x^2 + 3x + 5) leaves 3.
    let num: Vec<Scalar> = [2u64, 3, 1].iter().map(|c| Scalar::from_u64(*c)).collect();
    let den = vec![Scalar::one(), Scalar::one()];
    let mut records: Vec<Vec<RSS3FieldShare>> = (0..3)
        .map(|p| num.iter().map(|c| RSS3FieldShare::from_public(p, *c)).collect())
        .collect();
    let parts: Vec<_> = records.iter().map(|r| RSS3FieldShare::univariate_div_qr(&Ok(r.clone()), &Ok(den.clone())).unwrap()).collect();
    for i in 0..2 {
        let q = [coef(&parts[0].0, i), coef(&parts[1].0, i), coef(&parts[2].0, i)];
        let expected = [2u64, 1][i];
        assert_eq!(RSS3FieldShare::reconstruct(&q).unwrap().to_limbs(), [expected, 0, 0, 0]);
    }
    for p in 0..3 {
        for r in parts[p].1.iter() {
            assert!(r.val0.equals(&Scalar::zero()) && r.val1.equals(&Scalar::zero()));
        }
    }
    for p in 0..3 {
        records[p][0].shift(p, &Scalar::from_u64(3));
    }
    let parts: Vec<_> = records.iter().map(|r| RSS3FieldShare::univariate_div_qr(&Ok(r.clone()), &Ok(den.clone())).unwrap()).collect();
    let rem = [coef(&parts[0].1, 0), coef(&parts[1].1, 0), coef(&parts[2].1, 0)];
    assert_eq!(RSS3FieldShare::reconstruct(&rem).unwrap().to_limbs(), [3, 0, 0, 0]);
    let q0 = [coef(&parts[0].0, 0), coef(&parts[1].0, 0), coef(&parts[2].0, 0)];
    assert_eq!(RSS3FieldShare::reconstruct(&q0).unwrap().to_limbs(), [2, 0, 0, 0]);
}

#[test]
fn division_by_zero_polynomial_is_refused() {
    let num = vec![RSS3FieldShare::from_public(0, Scalar::one())];
    let num = Ok(num);
    assert!(RSS3FieldShare::univariate_div_qr(&num, &Ok(vec![Scalar::zero(), Scalar::zero()])).is_none());
    assert!(RSS3FieldShare::univariate_div_qr(&num, &Ok(vec![])).is_none());
    assert!(RSS3FieldShare::univariate_div_qr(&num, &Err(vec![(3, Scalar::zero())])).is_none());
    assert!(!has_nonzero_coeff(&Ok(vec![Scalar::zero()])));
    assert!(has_nonzero_coeff(&Ok(vec![Scalar::zero(), Scalar::one()])));
    assert!(has_nonzero_coeff(&Err(vec![(4, Scalar::one())])));
}

#[test]
fn sparse_division_by_public_polynomial() {
    // (x^4 + 5) / (x^2 + 1) = x^2 - 1, remainder 6.
    let den: Poly = Err(vec![(0, Scalar::one()), (2, Scalar::one())]);
    let parts: Vec<_> = (0..3)
        .map(|p| {
            let num: SharedPoly = Err(vec![
                (0, RSS3FieldShare::from_public(p, Scalar::from_u64(5))),
                (4, RSS3FieldShare::from_public(p, Scalar::one())),
            ]);
            RSS3FieldShare::univariate_div_qr(&num, &den).unwrap()
        })
        .collect();
    let q = |i: usize| [coef(&parts[0].0, i), coef(&parts[1].0, i), coef(&parts[2].0, i)];
    assert_eq!(to_fr(&RSS3FieldShare::reconstruct(&q(0)).unwrap()), -Fr::one());
    assert!(RSS3FieldShare::reconstruct(&q(1)).unwrap().equals(&Scalar::zero()));
    assert!(RSS3FieldShare::reconstruct(&q(2)).unwrap().equals(&Scalar::one()));
    let rem = [coef(&parts[0].1, 0), coef(&parts[1].1, 0), coef(&parts[2].1, 0)];
    assert_eq!(RSS3FieldShare::reconstruct(&rem).unwrap().to_limbs(), [6, 0, 0, 0]);
    let unordered: SharedPoly = Err(vec![
        (4, RSS3FieldShare::from_public(0, Scalar::one())),
        (0, RSS3FieldShare::from_public(0, Scalar::one())),
    ]);
    assert!(RSS3FieldShare::univariate_div_qr(&unordered, &den).is_none());
    let dense_num: SharedPoly = Ok(vec![RSS3FieldShare::from_public(0, Scalar::one())]);
    let unordered_den: Poly = Err(vec![(2, Scalar::one()), (1, Scalar::one())]);
    assert!(RSS3FieldShare::univariate_div_qr(&dense_num, &unordered_den).is_none());
}

#[test]
fn multiplicative_scheme() {
    let rng = &mut ark_std::test_rng();
    let x = Fr::rand(rng);
    let y = Fr::rand(rng);
    let xs: Vec<MulFieldShare> = (0..3).map(|p| MulFieldShare::from_public(p, from_fr(x))).collect();
    let ys: Vec<MulFieldShare> = (0..3).map(|p| MulFieldShare::from_public(p, from_fr(y))).collect();
    assert_eq!(to_fr(&MulFieldShare::reconstruct(&[xs[0], xs[1], xs[2]]).unwrap()), x);
    let zs: Vec<MulFieldShare> = (0..3).map(|p| xs[p].mul(&ys[p])).collect();
    assert_eq!(to_fr(&MulFieldShare::reconstruct(&[zs[0], zs[1], zs[2]]).unwrap()), x * y);
    let batch = MulFieldShare::batch_mul(&xs, &ys);
    assert_eq!(to_fr(&MulFieldShare::reconstruct(&[batch[0], batch[1], batch[2]]).unwrap()), x * y);
    let opened = MulFieldShare::batch_open(&[vec![xs[0], ys[0]], vec![xs[1], ys[1]], vec![xs[2], ys[2]]]).unwrap();
    assert_eq!((to_fr(&opened[0]), to_fr(&opened[1])), (x, y));
    let mut scaled = xs.clone();
    for p in 0..3 {
        scaled[p].scale(p, &Scalar::from_u64(3));
    }
    assert_eq!(to_fr(&MulFieldShare::reconstruct(&[scaled[0], scaled[1], scaled[2]]).unwrap()), x * Fr::from(3u64));
    let inv: Vec<MulFieldShare> = MulFieldShare::batch_inv(&xs).unwrap();
    assert_eq!(to_fr(&MulFieldShare::reconstruct(&[inv[0], inv[1], inv[2]]).unwrap()), x.inverse().unwrap());
    let mut bad = [xs[0], xs[1], xs[2]];
    bad[1].val0 = from_fr(y);
    assert_eq!(MulFieldShare::reconstruct(&bad).err(), Some(ShareError::Inconsistent));
}

#[test]
fn multiplicative_scheme_refuses_addition() {
    let mut a = MulFieldShare::from_public(0, Scalar::from_u64(4));
    let b = MulFieldShare::from_public(0, Scalar::from_u64(9));
    assert_eq!(a.add(&b), Err(ShareError::Unsupported));
    assert_eq!(a.val0.to_limbs(), [4, 0, 0, 0]);
    assert_eq!(a.shift(&Scalar::one()), Err(ShareError::Unsupported));
    assert_eq!(a.unwrap_as_public().err(), Some(ShareError::Unsupported));
    let zero = MulFieldShare::from_public(0, Scalar::zero());
    assert!(zero.inv().is_none());
    assert!(MulFieldShare::batch_inv(&vec![a, zero]).is_none());
}

#[test]
fn common_randomness_gives_a_sharing() {
    let rng = &mut ark_std::test_rng();
    let r: Vec<Fr> = (0..3).map(|_| Fr::rand(rng)).collect();
    let s = [0, 1, 2].map(|p| RSS3FieldShare::from_common_randomness(p, from_fr(r[0]), from_fr(r[1]), from_fr(r[2])));
    assert_eq!(to_fr(&RSS3FieldShare::reconstruct(&s).unwrap()), r[0] + r[1] + r[2]);
    let other = RSS3FieldShare::from_common_randomness(3, from_fr(r[0]), from_fr(r[1]), from_fr(r[2]));
    assert!(other.val0.equals(&Scalar::zero()) && other.val1.equals(&Scalar::zero()));
}
