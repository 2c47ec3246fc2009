//! Double-precision real scalars, carried by their IEEE-754 bit patterns.
//!
//! Verus has no theory of floating-point arithmetic, so this crate treats a
//! double as an opaque 64-bit pattern. Every arithmetic operation is an
//! IEEE-754 operation: a pure function of the operand bits alone. Each
//! operation therefore gets an uninterpreted name, and a trusted wrapper
//! whose body performs the operation through the `num` crate's `Complex64`
//! container (the container only fixes the floating-point type, which this
//! crate's text cannot spell; the `re`/`im` components are the operands).

use vstd::prelude::*;

verus! {

/// A double-precision value, as its 64-bit IEEE-754 pattern.
pub type Fp = u64;

/// The bit pattern of positive zero.
pub const ZERO_BITS: Fp = 0;

/// The bit pattern of the double nearest 2π.
pub const TAU_BITS: Fp = 0x401921FB54442D18;

/// Sum of two doubles (IEEE-754 addition, round to nearest even).
pub uninterp spec fn fadd_of(a: Fp, b: Fp) -> Fp;

/// Product of two doubles (IEEE-754 multiplication).
pub uninterp spec fn fmul_of(a: Fp, b: Fp) -> Fp;

/// Quotient of two doubles (IEEE-754 division).
pub uninterp spec fn fdiv_of(a: Fp, b: Fp) -> Fp;

/// Negation of a double (sign-bit flip).
pub uninterp spec fn fneg_of(a: Fp) -> Fp;

/// The IEEE-754 `<` comparison. False whenever either operand is a NaN.
pub uninterp spec fn flt_of(a: Fp, b: Fp) -> bool;

/// The larger of two doubles as `f64::max` computes it: it returns the
/// other operand when one is a NaN.
pub uninterp spec fn fmax_of(a: Fp, b: Fp) -> Fp;

/// The cosine of a double, as the platform's `cos` computes it.
pub uninterp spec fn fcos_of(a: Fp) -> Fp;

/// The sine of a double, as the platform's `sin` computes it.
pub uninterp spec fn fsin_of(a: Fp) -> Fp;

/// The double nearest to an unsigned integer (exact below 2^53).
pub uninterp spec fn fp_of_int_of(n: u64) -> Fp;

/// Relies on `f64` addition: a pure function of the two operand patterns.
#[verifier::external_body]
pub(crate) fn fadd(a: Fp, b: Fp) -> (r: Fp)
    ensures
        r == fadd_of(a, b),
{
    let c = num::complex::Complex64::new(
        num::traits::FromBytes::from_le_bytes(&a.to_le_bytes()),
        num::traits::FromBytes::from_le_bytes(&b.to_le_bytes()),
    );
    (c.re + c.im).to_bits()
}

/// Relies on `f64` multiplication: a pure function of the two operand patterns.
#[verifier::external_body]
pub(crate) fn fmul(a: Fp, b: Fp) -> (r: Fp)
    ensures
        r == fmul_of(a, b),
{
    let c = num::complex::Complex64::new(
        num::traits::FromBytes::from_le_bytes(&a.to_le_bytes()),
        num::traits::FromBytes::from_le_bytes(&b.to_le_bytes()),
    );
    (c.re * c.im).to_bits()
}

/// Relies on `f64` division: a pure function of the two operand patterns.
/// Division by zero yields an infinity or a NaN, never a panic.
#[verifier::external_body]
pub(crate) fn fdiv(a: Fp, b: Fp) -> (r: Fp)
    ensures
        r == fdiv_of(a, b),
{
    let c = num::complex::Complex64::new(
        num::traits::FromBytes::from_le_bytes(&a.to_le_bytes()),
        num::traits::FromBytes::from_le_bytes(&b.to_le_bytes()),
    );
    (c.re / c.im).to_bits()
}

/// Relies on `f64` negation: a pure function of the operand pattern.
#[verifier::external_body]
pub(crate) fn fneg(a: Fp) -> (r: Fp)
    ensures
        r == fneg_of(a),
{
    let c = num::complex::Complex64::new(
        num::traits::FromBytes::from_le_bytes(&a.to_le_bytes()),
        num::traits::FromBytes::from_le_bytes(&a.to_le_bytes()),
    );
    (-c.re).to_bits()
}

/// Relies on the `f64` `<` comparison: a pure function of the operand
/// patterns, false when either operand is a NaN.
#[verifier::external_body]
pub(crate) fn flt(a: Fp, b: Fp) -> (r: bool)
    ensures
        r == flt_of(a, b),
{
    let c = num::complex::Complex64::new(
        num::traits::FromBytes::from_le_bytes(&a.to_le_bytes()),
        num::traits::FromBytes::from_le_bytes(&b.to_le_bytes()),
    );
    c.re < c.im
}

/// Relies on `f64::max`: a pure function of the operand patterns.
#[verifier::external_body]
pub(crate) fn fmax(a: Fp, b: Fp) -> (r: Fp)
    ensures
        r == fmax_of(a, b),
{
    let c = num::complex::Complex64::new(
        num::traits::FromBytes::from_le_bytes(&a.to_le_bytes()),
        num::traits::FromBytes::from_le_bytes(&b.to_le_bytes()),
    );
    c.re.max(c.im).to_bits()
}

/// Relies on `f64::cos`.
#[verifier::external_body]
pub(crate) fn fcos(a: Fp) -> (r: Fp)
    ensures
        r == fcos_of(a),
{
    let c = num::complex::Complex64::new(
        num::traits::FromBytes::from_le_bytes(&a.to_le_bytes()),
        num::traits::FromBytes::from_le_bytes(&a.to_le_bytes()),
    );
    c.re.cos().to_bits()
}

/// Relies on `f64::sin`.
#[verifier::external_body]
pub(crate) fn fsin(a: Fp) -> (r: Fp)
    ensures
        r == fsin_of(a),
{
    let c = num::complex::Complex64::new(
        num::traits::FromBytes::from_le_bytes(&a.to_le_bytes()),
        num::traits::FromBytes::from_le_bytes(&a.to_le_bytes()),
    );
    c.re.sin().to_bits()
}

/// Relies on `num::traits::FloatConst::TAU`, the double nearest 2π, whose
/// bit pattern is the [`TAU_BITS`] constant.
#[verifier::external_body]
pub(crate) fn fp_tau() -> (r: Fp)
    ensures
        r == TAU_BITS,
{
    let c = num::complex::Complex64::new(
        num::traits::FloatConst::TAU(),
        num::traits::FloatConst::TAU(),
    );
    c.re.to_bits()
}

/// Relies on `num::traits::FromPrimitive::from_u64` for the double type,
/// which is the primitive unsigned-to-double cast; it never returns `None`.
#[verifier::external_body]
pub(crate) fn fp_of_int(n: u64) -> (r: Fp)
    ensures
        r == fp_of_int_of(n),
{
    let c = num::complex::Complex64::new(
        num::traits::FromPrimitive::from_u64(n).unwrap(),
        num::traits::FromPrimitive::from_u64(n).unwrap(),
    );
    c.re.to_bits()
}

} // verus!
