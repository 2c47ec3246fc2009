//! Complex numbers over the bit-pattern reals of [`crate::fp`].
//!
//! A complex value is a pair of double bit patterns. Complex arithmetic is
//! done by the `num` crate's `Complex64`; each operation is a pure function
//! of the operand bits, so its result is carried by an uninterpreted name
//! that the trusted wrappers apply.

use vstd::prelude::*;
use crate::fp::Fp;

verus! {

/// A complex number: real and imaginary parts as double bit patterns.
#[derive(Clone, Copy, PartialEq, Eq, Structural, Debug)]
pub struct Cplx {
    pub re: Fp,
    pub im: Fp,
}

/// Complex sum, componentwise IEEE-754 addition.
pub uninterp spec fn cadd_of(a: Cplx, b: Cplx) -> Cplx;

/// Complex difference, componentwise IEEE-754 subtraction.
pub uninterp spec fn csub_of(a: Cplx, b: Cplx) -> Cplx;

/// Complex product as `num`'s `Complex64` multiplication computes it.
pub uninterp spec fn cmul_of(a: Cplx, b: Cplx) -> Cplx;

/// Complex quotient as `num`'s `Complex64` division computes it.
/// A zero divisor yields infinities or NaNs, never a panic.
pub uninterp spec fn cdiv_of(a: Cplx, b: Cplx) -> Cplx;

/// The L1 norm `|re| + |im|` as `Complex64::l1_norm` computes it.
pub uninterp spec fn cl1_of(a: Cplx) -> Fp;

/// `a` raised to the real power `e` as `Complex64::powf` computes it:
/// the principal-branch polar form `from_polar(norm^e, arg * e)`.
pub uninterp spec fn cpow_of(a: Cplx, e: Fp) -> Cplx;

/// Relies on `Complex64` addition (num crate): componentwise, a pure
/// function of the operand bits.
#[verifier::external_body]
pub(crate) fn cadd(a: Cplx, b: Cplx) -> (r: Cplx)
    ensures
        r == cadd_of(a, b),
{
    let x = num::complex::Complex64::new(
        num::traits::FromBytes::from_le_bytes(&a.re.to_le_bytes()),
        num::traits::FromBytes::from_le_bytes(&a.im.to_le_bytes()),
    );
    let y = num::complex::Complex64::new(
        num::traits::FromBytes::from_le_bytes(&b.re.to_le_bytes()),
        num::traits::FromBytes::from_le_bytes(&b.im.to_le_bytes()),
    );
    let z = x + y;
    Cplx { re: z.re.to_bits(), im: z.im.to_bits() }
}

/// Relies on `Complex64` subtraction (num crate).
#[verifier::external_body]
pub(crate) fn csub(a: Cplx, b: Cplx) -> (r: Cplx)
    ensures
        r == csub_of(a, b),
{
    let x = num::complex::Complex64::new(
        num::traits::FromBytes::from_le_bytes(&a.re.to_le_bytes()),
        num::traits::FromBytes::from_le_bytes(&a.im.to_le_bytes()),
    );
    let y = num::complex::Complex64::new(
        num::traits::FromBytes::from_le_bytes(&b.re.to_le_bytes()),
        num::traits::FromBytes::from_le_bytes(&b.im.to_le_bytes()),
    );
    let z = x - y;
    Cplx { re: z.re.to_bits(), im: z.im.to_bits() }
}

/// Relies on `Complex64` multiplication (num crate).
#[verifier::external_body]
pub(crate) fn cmul(a: Cplx, b: Cplx) -> (r: Cplx)
    ensures
        r == cmul_of(a, b),
{
    let x = num::complex::Complex64::new(
        num::traits::FromBytes::from_le_bytes(&a.re.to_le_bytes()),
        num::traits::FromBytes::from_le_bytes(&a.im.to_le_bytes()),
    );
    let y = num::complex::Complex64::new(
        num::traits::FromBytes::from_le_bytes(&b.re.to_le_bytes()),
        num::traits::FromBytes::from_le_bytes(&b.im.to_le_bytes()),
    );
    let z = x * y;
    Cplx { re: z.re.to_bits(), im: z.im.to_bits() }
}

/// Relies on `Complex64` division (num crate); a zero divisor yields
/// non-finite components, never a panic.
#[verifier::external_body]
pub(crate) fn cdiv(a: Cplx, b: Cplx) -> (r: Cplx)
    ensures
        r == cdiv_of(a, b),
{
    let x = num::complex::Complex64::new(
        num::traits::FromBytes::from_le_bytes(&a.re.to_le_bytes()),
        num::traits::FromBytes::from_le_bytes(&a.im.to_le_bytes()),
    );
    let y = num::complex::Complex64::new(
        num::traits::FromBytes::from_le_bytes(&b.re.to_le_bytes()),
        num::traits::FromBytes::from_le_bytes(&b.im.to_le_bytes()),
    );
    let z = x / y;
    Cplx { re: z.re.to_bits(), im: z.im.to_bits() }
}

/// Relies on `Complex64::l1_norm` (num crate): `|re| + |im|`.
#[verifier::external_body]
pub(crate) fn cl1(a: Cplx) -> (r: Fp)
    ensures
        r == cl1_of(a),
{
    let x = num::complex::Complex64::new(
        num::traits::FromBytes::from_le_bytes(&a.re.to_le_bytes()),
        num::traits::FromBytes::from_le_bytes(&a.im.to_le_bytes()),
    );
    x.l1_norm().to_bits()
}

/// Relies on `Complex64::powf` (num crate): principal-branch polar power.
#[verifier::external_body]
pub(crate) fn cpow(a: Cplx, e: Fp) -> (r: Cplx)
    ensures
        r == cpow_of(a, e),
{
    let x = num::complex::Complex64::new(
        num::traits::FromBytes::from_le_bytes(&a.re.to_le_bytes()),
        num::traits::FromBytes::from_le_bytes(&a.im.to_le_bytes()),
    );
    let y = num::complex::Complex64::new(
        num::traits::FromBytes::from_le_bytes(&e.to_le_bytes()),
        num::traits::FromBytes::from_le_bytes(&e.to_le_bytes()),
    );
    let z = x.powf(y.re);
    Cplx { re: z.re.to_bits(), im: z.im.to_bits() }
}

} // verus!
