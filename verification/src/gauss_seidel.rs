//! The sequential Aberth driver: one Gauss-Seidel pass after another.
//!
//! Within a pass the roots are visited in ascending index order and each
//! update is committed at once, so later roots see the fresher estimates of
//! earlier ones. A root whose residual falls below the micro-tolerance is
//! frozen for the following passes, but is still corrected and still
//! contributes its (tiny) residual to the pass maximum in the pass on which
//! it crosses. The run stops on the first pass whose largest recorded
//! residual falls below `options.tol`, or when the pass budget runs out.
//! A near-zero correction denominator is not guarded: the step divides by
//! it regardless, and IEEE division turns it into a large (possibly
//! non-finite) jump rather than a failure.

use vstd::prelude::*;
use crate::fp::{Fp, flt_of, flt, ZERO_BITS};
use crate::cplx::{Cplx, csub_of, cdiv_of, cl1_of, csub, cdiv, cl1};
use crate::eval::{horner_cx, horner_c_unchecked};
use crate::model::{Options, RunOut, micro_tol, micro_tol_exec, deriv_of, deriv_coeffs,
    repel_of, repel};
use crate::AberthError;

verus! {

/// The state carried through one Gauss-Seidel pass: the live roots, the
/// convergence flags, and the largest residual recorded so far.
pub ghost struct SweepState {
    pub zs: Seq<Cplx>,
    pub conv: Seq<bool>,
    pub worst: Fp,
}

/// One Gauss-Seidel step: what visiting root `i` does to the pass state.
///
/// A root already frozen is skipped. Otherwise its residual is the L1 norm
/// of `P(z_i)`; crossing the micro-tolerance freezes the root for later
/// passes; the root is then corrected by the Aberth step
/// `z_i - P(z_i) / (P'(z_i) - sum)` and the residual enters the running
/// maximum, compared with the IEEE `<`.
pub open spec fn gs_step(coeffs: Seq<Fp>, pb: Seq<Fp>, s: SweepState, i: int) -> SweepState
    recommends
        0 <= i < s.zs.len(),
        s.conv.len() == s.zs.len(),
{
    if s.conv[i] {
        s
    } else {
        let zi = s.zs[i];
        let pp = horner_cx(coeffs, zi);
        let ti = cl1_of(pp);
        let conv2 = if flt_of(ti, micro_tol()) {
            s.conv.update(i, true)
        } else {
            s.conv
        };
        let den = repel_of(horner_cx(pb, zi), pp, zi, s.zs, i, s.zs.len() as int);
        SweepState {
            zs: s.zs.update(i, csub_of(zi, cdiv_of(pp, den))),
            conv: conv2,
            worst: if flt_of(s.worst, ti) {
                ti
            } else {
                s.worst
            },
        }
    }
}

/// The pass state after visiting the first `n` roots in ascending order.
pub open spec fn gs_pass(coeffs: Seq<Fp>, pb: Seq<Fp>, s: SweepState, n: int) -> SweepState
    recommends
        n <= s.zs.len(),
        s.conv.len() == s.zs.len(),
    decreases n,
{
    if n <= 0 {
        s
    } else {
        gs_step(coeffs, pb, gs_pass(coeffs, pb, s, n - 1), n - 1)
    }
}

/// The outcome of running Gauss-Seidel passes from pass index `iter` up to
/// the budget `max`: stop with success on the first pass whose largest
/// residual is below `tol`, and with failure when the budget is exhausted.
pub open spec fn gs_run(
    coeffs: Seq<Fp>,
    pb: Seq<Fp>,
    tol: Fp,
    zs: Seq<Cplx>,
    conv: Seq<bool>,
    iter: int,
    max: int,
) -> RunOut
    recommends
        conv.len() == zs.len(),
    decreases max - iter,
{
    if iter >= max {
        RunOut { iters: max, ok: false, zs: zs, conv: conv }
    } else {
        let s = gs_pass(
            coeffs,
            pb,
            SweepState { zs: zs, conv: conv, worst: ZERO_BITS },
            zs.len() as int,
        );
        if flt_of(s.worst, tol) {
            RunOut { iters: iter, ok: true, zs: s.zs, conv: s.conv }
        } else {
            gs_run(coeffs, pb, tol, s.zs, s.conv, iter + 1, max)
        }
    }
}

/// Refine the root estimates in place by sequential Gauss-Seidel passes of
/// Aberth's method.
///
/// For a coefficient sequence of length at least two, the mutated roots,
/// the pass count and the convergence flag are exactly what [`gs_run`]
/// says of the inputs, with all roots initially active; a shorter sequence
/// is rejected with `InvalidDegree` and the roots are left untouched.
pub fn aberth(coeffs: &[Fp], zs: &mut Vec<Cplx>, options: &Options) -> (r: Result<
    (usize, bool),
    AberthError,
>)
    ensures
        coeffs@.len() < 2 ==> r == Err::<(usize, bool), AberthError>(AberthError::InvalidDegree)
            && final(zs)@ == old(zs)@,
        coeffs@.len() >= 2 ==> {
            let out = gs_run(
                coeffs@,
                deriv_of(coeffs@),
                options.tol,
                old(zs)@,
                Seq::new(old(zs)@.len(), |i: int| false),
                0,
                options.max_iters as int,
            );
            &&& r is Ok
            &&& r->Ok_0.0 == out.iters
            &&& r->Ok_0.1 == out.ok
            &&& final(zs)@ == out.zs
            &&& final(zs)@.len() == old(zs)@.len()
        },
{
    if coeffs.len() < 2 {
        return Err(AberthError::InvalidDegree);
    }
    let ghost zs0: Seq<Cplx> = zs@;
    let ghost conv0: Seq<bool> = Seq::new(zs@.len(), |i: int| false);
    let m: usize = zs.len();
    let max: usize = options.max_iters;
    let pb: Vec<Fp> = deriv_coeffs(coeffs);
    let micro: Fp = micro_tol_exec();
    let mut conv: Vec<bool> = Vec::new();
    while conv.len() < m
        invariant
            conv@.len() <= m,
            forall|j: int| 0 <= j < conv@.len() ==> conv@[j] == false,
        decreases m - conv.len(),
    {
        conv.push(false);
    }
    proof {
        assert(conv@ =~= conv0);
    }
    let mut niter: usize = 0;
    while niter < max
        invariant
            niter <= max,
            coeffs@.len() >= 2,
            pb@ == deriv_of(coeffs@),
            micro == micro_tol(),
            zs@.len() == m,
            conv@.len() == m,
            max == options.max_iters,
            m == old(zs)@.len(),
            zs0 == old(zs)@,
            conv0 == Seq::new(old(zs)@.len(), |i: int| false),
            gs_run(coeffs@, pb@, options.tol, zs0, conv0, 0, max as int) == gs_run(
                coeffs@,
                pb@,
                options.tol,
                zs@,
                conv@,
                niter as int,
                max as int,
            ),
        decreases max - niter,
    {
        let ghost pass0 = SweepState { zs: zs@, conv: conv@, worst: ZERO_BITS };
        let mut worst: Fp = ZERO_BITS;
        let mut i: usize = 0;
        while i < m
            invariant
                i <= m,
                coeffs@.len() >= 2,
                pb@ == deriv_of(coeffs@),
                micro == micro_tol(),
                zs@.len() == m,
                conv@.len() == m,
                pass0.zs.len() == m,
                pass0.conv.len() == m,
                zs@ == gs_pass(coeffs@, pb@, pass0, i as int).zs,
                conv@ == gs_pass(coeffs@, pb@, pass0, i as int).conv,
                worst == gs_pass(coeffs@, pb@, pass0, i as int).worst,
            decreases m - i,
        {
            proof {
                assert(gs_pass(coeffs@, pb@, pass0, i + 1) == gs_step(
                    coeffs@,
                    pb@,
                    gs_pass(coeffs@, pb@, pass0, i as int),
                    i as int,
                ));
            }
            if !conv[i] {
                let zi: Cplx = zs[i];
                let pp: Cplx = horner_c_unchecked(coeffs, zi);
                let ti: Fp = cl1(pp);
                if flt(ti, micro) {
                    conv.set(i, true);
                }
                let acc: Cplx = horner_c_unchecked(&pb, zi);
                let den: Cplx = repel(acc, pp, zi, zs, i);
                zs.set(i, csub(zi, cdiv(pp, den)));
                if flt(worst, ti) {
                    worst = ti;
                }
            }
            i = i + 1;
        }
        proof {
            assert(gs_run(coeffs@, pb@, options.tol, pass0.zs, pass0.conv, niter as int,
                max as int) == if flt_of(worst, options.tol) {
                RunOut { iters: niter as int, ok: true, zs: zs@, conv: conv@ }
            } else {
                gs_run(coeffs@, pb@, options.tol, zs@, conv@, niter as int + 1, max as int)
            });
        }
        if flt(worst, options.tol) {
            return Ok((niter, true));
        }
        niter = niter + 1;
    }
    Ok((max, false))
}

} // verus!
