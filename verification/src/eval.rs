//! Polynomial evaluation by Horner's rule, for a real or a complex point.
//!
//! Coefficients are ordered highest degree first. The value accumulates
//! left to right: start at the leading coefficient, then repeatedly
//! multiply by the point and add the next coefficient.

use vstd::prelude::*;
use crate::fp::{Fp, fadd_of, fmul_of, fadd, fmul, ZERO_BITS};
use crate::cplx::{Cplx, cadd_of, cmul_of, cadd, cmul};
use crate::AberthError;

verus! {

/// The complex number with real part `c` and zero imaginary part.
pub open spec fn lift(c: Fp) -> Cplx {
    Cplx { re: c, im: ZERO_BITS }
}

/// Horner value of `coeffs` (highest degree first) at the real point `z`.
pub open spec fn horner_fp(coeffs: Seq<Fp>, z: Fp) -> Fp
    recommends
        coeffs.len() >= 1,
    decreases coeffs.len(),
{
    if coeffs.len() <= 1 {
        coeffs[0]
    } else {
        fadd_of(fmul_of(horner_fp(coeffs.drop_last(), z), z), coeffs.last())
    }
}

/// Horner value of `coeffs` at the complex point `z`, the real coefficients
/// lifted to complex numbers.
pub open spec fn horner_cx(coeffs: Seq<Fp>, z: Cplx) -> Cplx
    recommends
        coeffs.len() >= 1,
    decreases coeffs.len(),
{
    if coeffs.len() <= 1 {
        lift(coeffs[0])
    } else {
        cadd_of(cmul_of(horner_cx(coeffs.drop_last(), z), z), lift(coeffs.last()))
    }
}

/// Horner evaluation at a real point, for callers that have already
/// checked that at least one coefficient is present.
pub fn horner_f_unchecked(coeffs: &[Fp], zval: Fp) -> (r: Fp)
    requires
        coeffs@.len() >= 1,
    ensures
        r == horner_fp(coeffs@, zval),
{
    let n: usize = coeffs.len();
    let mut r: Fp = coeffs[0];
    let mut i: usize = 1;
    while i < n
        invariant
            1 <= i <= n,
            n == coeffs@.len(),
            r == horner_fp(coeffs@.subrange(0, i as int), zval),
        decreases n - i,
    {
        r = fadd(fmul(r, zval), coeffs[i]);
        proof {
            assert(coeffs@.subrange(0, i + 1).drop_last() =~= coeffs@.subrange(0, i as int));
        }
        i = i + 1;
    }
    proof {
        assert(coeffs@.subrange(0, n as int) =~= coeffs@);
    }
    r
}

/// Horner evaluation at a complex point, for callers that have already
/// checked that at least one coefficient is present.
pub fn horner_c_unchecked(coeffs: &[Fp], zval: Cplx) -> (r: Cplx)
    requires
        coeffs@.len() >= 1,
    ensures
        r == horner_cx(coeffs@, zval),
{
    let n: usize = coeffs.len();
    let mut r: Cplx = Cplx { re: coeffs[0], im: ZERO_BITS };
    let mut i: usize = 1;
    while i < n
        invariant
            1 <= i <= n,
            n == coeffs@.len(),
            r == horner_cx(coeffs@.subrange(0, i as int), zval),
        decreases n - i,
    {
        r = cadd(cmul(r, zval), Cplx { re: coeffs[i], im: ZERO_BITS });
        proof {
            assert(coeffs@.subrange(0, i + 1).drop_last() =~= coeffs@.subrange(0, i as int));
        }
        i = i + 1;
    }
    proof {
        assert(coeffs@.subrange(0, n as int) =~= coeffs@);
    }
    r
}

/// Evaluate the polynomial at a real point.
///
/// Returns the Horner value for a non-empty coefficient sequence and
/// `InvalidDegree` for an empty one.
pub fn horner_eval_f(coeffs: &[Fp], zval: Fp) -> (r: Result<Fp, AberthError>)
    ensures
        coeffs@.len() >= 1 ==> r == Ok::<Fp, AberthError>(horner_fp(coeffs@, zval)),
        coeffs@.len() == 0 ==> r == Err::<Fp, AberthError>(AberthError::InvalidDegree),
{
    if coeffs.len() == 0 {
        Err(AberthError::InvalidDegree)
    } else {
        Ok(horner_f_unchecked(coeffs, zval))
    }
}

/// Evaluate the polynomial at a complex point, the real coefficients
/// lifted to complex numbers.
///
/// Returns the Horner value for a non-empty coefficient sequence and
/// `InvalidDegree` for an empty one.
pub fn horner_eval_c(coeffs: &[Fp], zval: &Cplx) -> (r: Result<Cplx, AberthError>)
    ensures
        coeffs@.len() >= 1 ==> r == Ok::<Cplx, AberthError>(horner_cx(coeffs@, *zval)),
        coeffs@.len() == 0 ==> r == Err::<Cplx, AberthError>(AberthError::InvalidDegree),
{
    if coeffs.len() == 0 {
        Err(AberthError::InvalidDegree)
    } else {
        Ok(horner_c_unchecked(coeffs, *zval))
    }
}

} // verus!
