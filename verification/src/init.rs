//! Initial estimates for Aberth's method: one guess per root, placed on a
//! circle around a linear estimate of the polynomial's centroid.
//!
//! For degree `d`, the center is `-coeffs[1] / (coeffs[0] * d)`; the circle
//! is scaled and rotated by the principal `d`-th root of `-P(center)`; the
//! guesses sit at uniform angles `(2π/d) * (1/4 + k)`, the quarter turn
//! keeping them off the real axis.

use vstd::prelude::*;
use crate::fp::{Fp, fadd_of, fmul_of, fdiv_of, fneg_of, fcos_of, fsin_of, fp_of_int_of,
    fadd, fmul, fdiv, fneg, fcos, fsin, fp_of_int, fp_tau, ZERO_BITS, TAU_BITS};
use crate::cplx::{Cplx, cadd_of, cmul_of, cpow_of, cadd, cmul, cpow};
use crate::eval::{lift, horner_fp, horner_f_unchecked};
use crate::AberthError;

verus! {

/// The centroid estimate `-coeffs[1] / (coeffs[0] * degree)`.
pub open spec fn center_of(coeffs: Seq<Fp>) -> Fp
    recommends
        coeffs.len() >= 2,
{
    fdiv_of(fneg_of(coeffs[1]), fmul_of(coeffs[0], fp_of_int_of((coeffs.len() - 1) as u64)))
}

/// The principal `degree`-th root of `-P(center)`: the common radius and
/// rotational offset of all initial guesses.
pub open spec fn radius_of(coeffs: Seq<Fp>) -> Cplx
    recommends
        coeffs.len() >= 2,
{
    cpow_of(
        lift(fneg_of(horner_fp(coeffs, center_of(coeffs)))),
        fdiv_of(fp_of_int_of(1), fp_of_int_of((coeffs.len() - 1) as u64)),
    )
}

/// The double nearest one quarter.
pub open spec fn quarter() -> Fp {
    fdiv_of(fp_of_int_of(1), fp_of_int_of(4))
}

/// The angle of guess `i`: `(2π/degree) * (1/4 + i)`.
pub open spec fn angle_of(coeffs: Seq<Fp>, i: int) -> Fp
    recommends
        coeffs.len() >= 2,
{
    fmul_of(
        fdiv_of(TAU_BITS, fp_of_int_of((coeffs.len() - 1) as u64)),
        fadd_of(quarter(), fp_of_int_of(i as u64)),
    )
}

/// Guess `i`: `center + radius * (cos(angle_i) + i sin(angle_i))`.
pub open spec fn guess_of(coeffs: Seq<Fp>, i: int) -> Cplx
    recommends
        coeffs.len() >= 2,
{
    cadd_of(
        lift(center_of(coeffs)),
        cmul_of(
            radius_of(coeffs),
            Cplx { re: fcos_of(angle_of(coeffs, i)), im: fsin_of(angle_of(coeffs, i)) },
        ),
    )
}

/// The full seed sequence, one guess per root.
pub open spec fn initial_guesses(coeffs: Seq<Fp>) -> Seq<Cplx>
    recommends
        coeffs.len() >= 2,
{
    Seq::new((coeffs.len() - 1) as nat, |i: int| guess_of(coeffs, i))
}

/// Produce the initial root estimates for Aberth's method.
///
/// For a coefficient sequence of length at least two (degree at least one)
/// the result is exactly [`initial_guesses`]; a shorter sequence is
/// rejected with `InvalidDegree`.
pub fn initial_aberth(coeffs: &[Fp]) -> (r: Result<Vec<Cplx>, AberthError>)
    ensures
        coeffs@.len() >= 2 ==> r is Ok && r->Ok_0@ == initial_guesses(coeffs@),
        coeffs@.len() < 2 ==> r == Err::<Vec<Cplx>, AberthError>(AberthError::InvalidDegree),
{
    if coeffs.len() < 2 {
        return Err(AberthError::InvalidDegree);
    }
    let n: usize = coeffs.len();
    let degree: usize = n - 1;
    let dg: Fp = fp_of_int(degree as u64);
    let center: Fp = fdiv(fneg(coeffs[1]), fmul(coeffs[0], dg));
    let pc: Fp = horner_f_unchecked(coeffs, center);
    let radius: Cplx = cpow(Cplx { re: fneg(pc), im: ZERO_BITS }, fdiv(fp_of_int(1), dg));
    let k_step: Fp = fdiv(fp_tau(), dg);
    let quarter_v: Fp = fdiv(fp_of_int(1), fp_of_int(4));
    let mut z0s: Vec<Cplx> = Vec::new();
    let mut idx: usize = 0;
    while idx < degree
        invariant
            idx <= degree,
            coeffs@.len() >= 2,
            degree == coeffs@.len() - 1,
            dg == fp_of_int_of(degree as u64),
            center == center_of(coeffs@),
            radius == radius_of(coeffs@),
            k_step == fdiv_of(TAU_BITS, fp_of_int_of(degree as u64)),
            quarter_v == quarter(),
            z0s@.len() == idx,
            forall|j: int| 0 <= j < idx ==> z0s@[j] == guess_of(coeffs@, j),
        decreases degree - idx,
    {
        let theta: Fp = fmul(k_step, fadd(quarter_v, fp_of_int(idx as u64)));
        proof {
            assert(theta == angle_of(coeffs@, idx as int));
        }
        let dir = Cplx { re: fcos(theta), im: fsin(theta) };
        z0s.push(cadd(Cplx { re: center, im: ZERO_BITS }, cmul(radius, dir)));
        idx = idx + 1;
    }
    proof {
        assert(z0s@ =~= initial_guesses(coeffs@));
    }
    Ok(z0s)
}

} // verus!
