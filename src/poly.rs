//! Division of univariate polynomials over the scalar field, each given
//! densely (coefficients with the constant term first) or sparsely
//! (`(degree, coefficient)` pairs). The division itself is done by arkworks.
use vstd::prelude::*;

use crate::field::{scalar_values, Scalar};

use ark_bls12_377::Fr;
use ark_ff::{BigInteger256, PrimeField};
use ark_poly::univariate::{DenseOrSparsePolynomial, DensePolynomial, SparsePolynomial};
use ark_poly::UVPolynomial;

verus! {

/// A polynomial given densely (`Ok`) or sparsely (`Err`).
pub type Poly = Result<Vec<Scalar>, Vec<(usize, Scalar)>>;

/// The same polynomial over integers.
pub type PolyModel = Result<Seq<int>, Seq<(int, int)>>;

/// The `(degree, coefficient)` pairs as integers.
pub open spec fn term_values(s: Seq<(usize, Scalar)>) -> Seq<(int, int)> {
    s.map_values(|t: (usize, Scalar)| (t.0 as int, t.1@))
}

/// The model of a polynomial.
pub open spec fn poly_model(p: Poly) -> PolyModel {
    match p {
        Ok(c) => Ok(scalar_values(c@)),
        Err(t) => Err(term_values(t@)),
    }
}

/// The quotient and remainder, as dense coefficient sequences with trailing
/// zero coefficients dropped, that arkworks' division gives.
pub uninterp spec fn poly_division_of(num: PolyModel, den: PolyModel) -> (Seq<int>, Seq<int>);

/// The terms list their degrees in strictly increasing order.
pub open spec fn increasing_degrees(t: Seq<(int, int)>) -> bool {
    forall|i: int, j: int| 0 <= i < j < t.len() ==> #[trigger] t[i].0 < #[trigger] t[j].0
}

/// A sparse polynomial lists its degrees in strictly increasing order; a
/// dense one is always well formed.
pub open spec fn is_well_formed(p: PolyModel) -> bool {
    match p {
        Ok(_) => true,
        Err(t) => increasing_degrees(t),
    }
}

/// Some coefficient is not zero.
pub open spec fn nonzero_coeffs(c: Seq<int>) -> bool {
    exists|i: int| 0 <= i < c.len() && #[trigger] c[i] != 0
}

/// Some term's coefficient is not zero.
pub open spec fn nonzero_terms(t: Seq<(int, int)>) -> bool {
    exists|i: int| 0 <= i < t.len() && #[trigger] t[i].1 != 0
}

/// Some coefficient is not zero.
pub open spec fn is_nonzero_poly(p: PolyModel) -> bool {
    match p {
        Ok(c) => nonzero_coeffs(c),
        Err(t) => nonzero_terms(t),
    }
}

/// Whether some coefficient of `p` is not zero.
pub fn has_nonzero_coeff(p: &Poly) -> (r: bool)
    ensures
        r == is_nonzero_poly(poly_model(*p)),
{
    match p {
        Ok(c) => any_nonzero_coeff(c),
        Err(t) => any_nonzero_term(t),
    }
}

/// Whether `p` is well formed: a sparse polynomial's degrees must increase.
pub fn check_well_formed(p: &Poly) -> (r: bool)
    ensures
        r == is_well_formed(poly_model(*p)),
{
    match p {
        Ok(_) => true,
        Err(t) => degrees_increase(t),
    }
}

fn any_nonzero_coeff(c: &Vec<Scalar>) -> (r: bool)
    ensures
        r == nonzero_coeffs(scalar_values(c@)),
{
    let zero = Scalar::zero();
    let mut i: usize = 0;
    while i < c.len()
        invariant
            0 <= i <= c.len(),
            zero@ == 0,
            forall|j: int| 0 <= j < i ==> (#[trigger] c[j])@ == 0,
        decreases c.len() - i,
    {
        if !c[i].equals(&zero) {
            assert(scalar_values(c@)[i as int] != 0);
            return true;
        }
        i = i + 1;
    }
    assert forall|j: int| 0 <= j < c.len() implies #[trigger] scalar_values(c@)[j] == 0 by {
        assert(c[j]@ == 0);
    }
    false
}

fn any_nonzero_term(t: &Vec<(usize, Scalar)>) -> (r: bool)
    ensures
        r == nonzero_terms(term_values(t@)),
{
    let zero = Scalar::zero();
    let mut i: usize = 0;
    while i < t.len()
        invariant
            0 <= i <= t.len(),
            zero@ == 0,
            forall|j: int| 0 <= j < i ==> (#[trigger] t[j]).1@ == 0,
        decreases t.len() - i,
    {
        if !t[i].1.equals(&zero) {
            assert(term_values(t@)[i as int].1 != 0);
            return true;
        }
        i = i + 1;
    }
    assert forall|j: int| 0 <= j < t.len() implies #[trigger] term_values(t@)[j].1 == 0 by {
        assert(t[j].1@ == 0);
    }
    false
}

fn degrees_increase(t: &Vec<(usize, Scalar)>) -> (r: bool)
    ensures
        r == increasing_degrees(term_values(t@)),
{
    let mut i: usize = 1;
    while i < t.len()
        invariant
            1 <= i,
            i <= t.len() || t.len() == 0,
            forall|a: int, b: int| 0 <= a < b < i && b < t.len() ==> #[trigger] t[a].0 < #[trigger] t[b].0,
        decreases t.len() - i,
    {
        if t[i - 1].0 >= t[i].0 {
            assert(term_values(t@)[i - 1].0 >= term_values(t@)[i as int].0);
            return false;
        }
        assert forall|a: int, b: int| 0 <= a < b < i + 1 && b < t.len() implies #[trigger] t[a].0 < #[trigger] t[b].0 by {
            if b == i as int && a < i - 1 {
                assert(t[a].0 < t[i - 1].0);
            }
        }
        i = i + 1;
    }
    assert forall|a: int, b: int| 0 <= a < b < t.len() implies #[trigger] term_values(t@)[a].0 < #[trigger] term_values(t@)[b].0 by {
        assert(t[a].0 < t[b].0);
    }
    true
}

/// Relies on `DenseOrSparsePolynomial::divide_with_q_and_r` of ark-poly,
/// which panics only for a zero divisor and otherwise returns `Some`, and
/// on `SparsePolynomial::from_coefficients_vec`, which does not panic when
/// the degrees increase.
#[verifier::external_body]
pub(crate) fn poly_divide(num: &Poly, den: &Poly) -> (r: (Vec<Scalar>, Vec<Scalar>))
    requires
        is_nonzero_poly(poly_model(*den)),
        is_well_formed(poly_model(*num)),
        is_well_formed(poly_model(*den)),
    ensures
        (scalar_values(r.0@), scalar_values(r.1@)) == poly_division_of(poly_model(*num), poly_model(*den)),
{
    let f = |s: &Scalar| Fr::from_repr(BigInteger256(s.limbs)).unwrap();
    let to_ark = |p: &Poly| match p {
        Ok(c) => DenseOrSparsePolynomial::from(DensePolynomial::from_coefficients_vec(c.iter().map(f).collect())),
        Err(t) => SparsePolynomial::from_coefficients_vec(t.iter().map(|(d, c)| (*d, f(c))).collect()).into(),
    };
    let (q, r) = to_ark(num).divide_with_q_and_r(&to_ark(den)).unwrap();
    let g = |c: &Fr| Scalar { limbs: c.into_repr().0 };
    (q.coeffs.iter().map(g).collect(), r.coeffs.iter().map(g).collect())
}

} // verus!
