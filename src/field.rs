//! Elements of the BLS12-377 scalar field, held as canonical little-endian
//! 64-bit limbs. Arithmetic is done by arkworks.
use vstd::prelude::*;
use vstd::arithmetic::div_mod::*;

use ark_bls12_377::Fr;
use ark_ff::{BigInteger256, Field, PrimeField};

verus! {

/// The order of the BLS12-377 scalar field.
pub open spec fn modulus() -> int {
    (725501752471715841 + 18446744073709551616 * (6461107452199829505
        + 18446744073709551616 * (6968279316240510977
        + 18446744073709551616 * 1345280370688173398))) as int
}

/// The integer that four little-endian 64-bit limbs stand for.
pub open spec fn limbs4_value(l: Seq<u64>) -> int {
    l[0] as int + 18446744073709551616 * (l[1] as int + 18446744073709551616 * (l[2] as int
        + 18446744073709551616 * l[3] as int))
}

/// An element of the scalar field in canonical form.
#[derive(Clone, Copy, Debug)]
pub struct Scalar {
    pub(crate) limbs: [u64; 4],
}

impl View for Scalar {
    type V = int;

    closed spec fn view(&self) -> int {
        limbs4_value(self.limbs@) % modulus()
    }
}

impl Scalar {
    #[verifier::type_invariant]
    spec fn canonical(self) -> bool {
        limbs4_value(self.limbs@) < modulus()
    }

    /// The element `v`.
    pub fn from_u64(v: u64) -> (r: Scalar)
        ensures
            r@ == v as int,
    {
        let r = Scalar { limbs: [v, 0, 0, 0] };
        proof {
            lemma_small_mod(v as nat, modulus() as nat);
        }
        r
    }

    pub fn zero() -> (r: Scalar)
        ensures
            r@ == 0,
    {
        Scalar::from_u64(0)
    }

    pub fn one() -> (r: Scalar)
        ensures
            r@ == 1,
    {
        Scalar::from_u64(1)
    }

    /// The element whose canonical limbs are `limbs`, if they are below the
    /// modulus.
    pub fn from_limbs(limbs: [u64; 4]) -> (r: Option<Scalar>)
        ensures
            r is Some <==> limbs4_value(limbs@) < modulus(),
            r is Some ==> r->0@ == limbs4_value(limbs@),
    {
        if less_than_modulus(&limbs) {
            proof {
                lemma_small_mod(limbs4_value(limbs@) as nat, modulus() as nat);
            }
            Some(Scalar { limbs })
        } else {
            None
        }
    }

    /// The canonical limbs of this element.
    pub fn to_limbs(&self) -> (r: [u64; 4])
        ensures
            limbs4_value(r@) == self@,
    {
        proof {
            use_type_invariant(self);
            lemma_small_mod(limbs4_value(self.limbs@) as nat, modulus() as nat);
        }
        self.limbs
    }

    /// `self + o`.
    pub fn add(&self, o: &Scalar) -> (r: Scalar)
        ensures
            r@ == (self@ + o@) % modulus(),
    {
        fr_add(self, o)
    }

    /// `self - o`.
    pub fn sub(&self, o: &Scalar) -> (r: Scalar)
        ensures
            r@ == (self@ - o@) % modulus(),
    {
        fr_sub(self, o)
    }

    /// `self * o`.
    pub fn mul(&self, o: &Scalar) -> (r: Scalar)
        ensures
            r@ == (self@ * o@) % modulus(),
    {
        fr_mul(self, o)
    }

    /// The multiplicative inverse, or `None` for zero.
    pub fn inverse(&self) -> (r: Option<Scalar>)
        ensures
            r is Some <==> self@ != 0,
            r is Some ==> (self@ * r->0@) % modulus() == 1,
    {
        fr_inverse(self)
    }

    /// Whether the two elements are equal.
    pub fn equals(&self, o: &Scalar) -> (r: bool)
        ensures
            r == (self@ == o@),
    {
        fr_eq(self, o)
    }
}

/// The scalars' values, in order.
pub open spec fn scalar_values(s: Seq<Scalar>) -> Seq<int> {
    s.map_values(|k: Scalar| k@)
}

/// Every element lies in `[0, modulus())`.
pub broadcast proof fn lemma_scalar_range(s: Scalar)
    ensures
        0 <= #[trigger] s@ < modulus(),
{
    lemma_mod_bound(limbs4_value(s.limbs@), modulus());
}

fn less_than_modulus(l: &[u64; 4]) -> (r: bool)
    ensures
        r == (limbs4_value(l@) < modulus()),
{
    // The modulus, most significant limb first.
    let m3: u64 = 1345280370688173398;
    let m2: u64 = 6968279316240510977;
    let m1: u64 = 6461107452199829505;
    let m0: u64 = 725501752471715841;
    if l[3] != m3 {
        l[3] < m3
    } else if l[2] != m2 {
        l[2] < m2
    } else if l[1] != m1 {
        l[1] < m1
    } else {
        l[0] < m0
    }
}

/// Relies on `Add` of arkworks' `Fp256`: addition modulo the field order.
#[verifier::external_body]
fn fr_add(a: &Scalar, b: &Scalar) -> (r: Scalar)
    ensures
        r@ == (a@ + b@) % modulus(),
{
    let x = Fr::from_repr(BigInteger256(a.limbs)).unwrap();
    let y = Fr::from_repr(BigInteger256(b.limbs)).unwrap();
    Scalar { limbs: (x + y).into_repr().0 }
}

/// Relies on `Sub` of arkworks' `Fp256`: subtraction modulo the field order.
#[verifier::external_body]
fn fr_sub(a: &Scalar, b: &Scalar) -> (r: Scalar)
    ensures
        r@ == (a@ - b@) % modulus(),
{
    let x = Fr::from_repr(BigInteger256(a.limbs)).unwrap();
    let y = Fr::from_repr(BigInteger256(b.limbs)).unwrap();
    Scalar { limbs: (x - y).into_repr().0 }
}

/// Relies on `Mul` of arkworks' `Fp256`: multiplication modulo the field order.
#[verifier::external_body]
fn fr_mul(a: &Scalar, b: &Scalar) -> (r: Scalar)
    ensures
        r@ == (a@ * b@) % modulus(),
{
    let x = Fr::from_repr(BigInteger256(a.limbs)).unwrap();
    let y = Fr::from_repr(BigInteger256(b.limbs)).unwrap();
    Scalar { limbs: (x * y).into_repr().0 }
}

/// Relies on `Field::inverse` of arkworks' `Fp256`: `None` exactly for zero,
/// else the multiplicative inverse.
#[verifier::external_body]
fn fr_inverse(a: &Scalar) -> (r: Option<Scalar>)
    ensures
        r is Some <==> a@ != 0,
        r is Some ==> (a@ * r->0@) % modulus() == 1,
{
    let x = Fr::from_repr(BigInteger256(a.limbs)).unwrap();
    x.inverse().map(|y| Scalar { limbs: y.into_repr().0 })
}

/// Relies on `PartialEq` of arkworks' `Fp256`: equal exactly when the two
/// elements are the same field element.
#[verifier::external_body]
fn fr_eq(a: &Scalar, b: &Scalar) -> (r: bool)
    ensures
        r == (a@ == b@),
{
    let x = Fr::from_repr(BigInteger256(a.limbs)).unwrap();
    let y = Fr::from_repr(BigInteger256(b.limbs)).unwrap();
    x == y
}

} // verus!
