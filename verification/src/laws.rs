//! Laws of the two drivers, proved from their run specifications.

use vstd::prelude::*;
use crate::fp::{Fp, flt_of, ZERO_BITS};
use crate::cplx::{Cplx, cl1_of};
use crate::eval::horner_cx;
use crate::model::micro_tol;
use crate::gauss_seidel::{SweepState, gs_step, gs_pass, gs_run};
use crate::jacobi::{Update, jacobi_of, fold_worst, jacobi_zs_after, jacobi_conv_after,
    jacobi_run};

verus! {

/// Through the first `n` steps of a Gauss-Seidel pass: lengths are kept,
/// slots not yet visited are untouched, a set flag stays set, and the
/// running maximum stays below `tol` whenever it starts below `tol` and
/// every root's residual (taken at the pass-start estimates) is below
/// `tol`.
pub proof fn lemma_gs_pass_shape(coeffs: Seq<Fp>, pb: Seq<Fp>, s: SweepState, n: int, tol: Fp)
    requires
        0 <= n <= s.zs.len(),
        s.conv.len() == s.zs.len(),
    ensures
        gs_pass(coeffs, pb, s, n).zs.len() == s.zs.len(),
        gs_pass(coeffs, pb, s, n).conv.len() == s.zs.len(),
        forall|k: int|
            n <= k < s.zs.len() ==> gs_pass(coeffs, pb, s, n).zs[k] == s.zs[k] && gs_pass(
                coeffs,
                pb,
                s,
                n,
            ).conv[k] == s.conv[k],
        forall|k: int|
            0 <= k < s.zs.len() && s.conv[k] ==> gs_pass(coeffs, pb, s, n).conv[k],
        (flt_of(s.worst, tol) && (forall|i: int|
            0 <= i < s.zs.len() ==> flt_of(cl1_of(horner_cx(coeffs, s.zs[i])), tol))) ==> flt_of(
            gs_pass(coeffs, pb, s, n).worst,
            tol,
        ),
        (forall|i: int|
            0 <= i < s.zs.len() ==> flt_of(cl1_of(horner_cx(coeffs, s.zs[i])), micro_tol()))
            ==> forall|k: int| 0 <= k < n ==> gs_pass(coeffs, pb, s, n).conv[k],
    decreases n,
{
    if n > 0 {
        lemma_gs_pass_shape(coeffs, pb, s, n - 1, tol);
        let prev = gs_pass(coeffs, pb, s, n - 1);
        assert(gs_pass(coeffs, pb, s, n) == gs_step(coeffs, pb, prev, n - 1));
        assert(prev.zs[n - 1] == s.zs[n - 1]);
        assert(prev.conv[n - 1] == s.conv[n - 1]);
    }
}

/// Idempotence of the sequential driver: on a root collection whose every
/// residual is already below the micro-tolerance (and below a positive
/// pass tolerance), a fresh run stops on its first pass, reporting zero
/// iterations, success, and every root frozen.
pub proof fn lemma_gs_converged_run(coeffs: Seq<Fp>, pb: Seq<Fp>, tol: Fp, zs: Seq<Cplx>, max: int)
    requires
        max >= 1,
        flt_of(ZERO_BITS, tol),
        forall|i: int|
            0 <= i < zs.len() ==> flt_of(cl1_of(horner_cx(coeffs, zs[i])), micro_tol()),
        forall|i: int| 0 <= i < zs.len() ==> flt_of(cl1_of(horner_cx(coeffs, zs[i])), tol),
    ensures
        gs_run(coeffs, pb, tol, zs, Seq::new(zs.len(), |i: int| false), 0, max).iters == 0,
        gs_run(coeffs, pb, tol, zs, Seq::new(zs.len(), |i: int| false), 0, max).ok == true,
        gs_run(coeffs, pb, tol, zs, Seq::new(zs.len(), |i: int| false), 0, max).conv == Seq::new(
            zs.len(),
            |i: int| true,
        ),
{
    let conv0 = Seq::new(zs.len(), |i: int| false);
    let s0 = SweepState { zs: zs, conv: conv0, worst: ZERO_BITS };
    lemma_gs_pass_shape(coeffs, pb, s0, zs.len() as int, tol);
    let s = gs_pass(coeffs, pb, s0, zs.len() as int);
    assert(flt_of(s.worst, tol));
    assert(s.conv =~= Seq::new(zs.len(), |i: int| true));
}

/// Through the whole Gauss-Seidel run: the root count is kept, a set flag
/// stays set, the reported pass index never exceeds the budget, and the
/// budget is reported exactly when the tolerance was never met.
pub proof fn lemma_gs_run_shape(
    coeffs: Seq<Fp>,
    pb: Seq<Fp>,
    tol: Fp,
    zs: Seq<Cplx>,
    conv: Seq<bool>,
    iter: int,
    max: int,
)
    requires
        conv.len() == zs.len(),
        0 <= iter <= max,
    ensures
        gs_run(coeffs, pb, tol, zs, conv, iter, max).zs.len() == zs.len(),
        gs_run(coeffs, pb, tol, zs, conv, iter, max).conv.len() == zs.len(),
        forall|k: int|
            0 <= k < zs.len() && conv[k] ==> gs_run(coeffs, pb, tol, zs, conv, iter, max).conv[k],
        iter <= gs_run(coeffs, pb, tol, zs, conv, iter, max).iters <= max,
        gs_run(coeffs, pb, tol, zs, conv, iter, max).ok <==> gs_run(
            coeffs,
            pb,
            tol,
            zs,
            conv,
            iter,
            max,
        ).iters < max,
    decreases max - iter,
{
    if iter < max {
        let s0 = SweepState { zs: zs, conv: conv, worst: ZERO_BITS };
        lemma_gs_pass_shape(coeffs, pb, s0, zs.len() as int, tol);
        let s = gs_pass(coeffs, pb, s0, zs.len() as int);
        if !flt_of(s.worst, tol) {
            lemma_gs_run_shape(coeffs, pb, tol, s.zs, s.conv, iter + 1, max);
        }
    }
}

/// The pass maximum of a Jacobi pass none of whose tasks contributes a
/// residual is exactly zero.
pub proof fn lemma_fold_worst_empty(ups: Seq<Update>, conv: Seq<bool>, n: int)
    requires
        0 <= n <= ups.len(),
        conv.len() == ups.len(),
        forall|k: int| 0 <= k < ups.len() && !conv[k] ==> ups[k].residual is None,
    ensures
        fold_worst(ups, conv, n) == ZERO_BITS,
    decreases n,
{
    if n > 0 {
        lemma_fold_worst_empty(ups, conv, n - 1);
    }
}

/// Idempotence of the parallel driver: on a root collection whose every
/// residual is already below the micro-tolerance, a fresh run with a
/// positive pass tolerance stops on its first pass, reporting zero
/// iterations and success, freezing every root and leaving every root
/// estimate exactly as it was.
pub proof fn lemma_jacobi_converged_run(
    coeffs: Seq<Fp>,
    pb: Seq<Fp>,
    tol: Fp,
    zs: Seq<Cplx>,
    max: int,
)
    requires
        max >= 1,
        flt_of(ZERO_BITS, tol),
        forall|i: int|
            0 <= i < zs.len() ==> flt_of(cl1_of(horner_cx(coeffs, zs[i])), micro_tol()),
    ensures
        jacobi_run(coeffs, pb, tol, zs, Seq::new(zs.len(), |i: int| false), 0, max).iters == 0,
        jacobi_run(coeffs, pb, tol, zs, Seq::new(zs.len(), |i: int| false), 0, max).ok == true,
        jacobi_run(coeffs, pb, tol, zs, Seq::new(zs.len(), |i: int| false), 0, max).zs == zs,
        jacobi_run(coeffs, pb, tol, zs, Seq::new(zs.len(), |i: int| false), 0, max).conv
            == Seq::new(zs.len(), |i: int| true),
{
    let conv0 = Seq::new(zs.len(), |i: int| false);
    let ups = Seq::new(zs.len(), |i: int| jacobi_of(coeffs, pb, zs, conv0[i], i));
    lemma_fold_worst_empty(ups, conv0, zs.len() as int);
    assert(jacobi_zs_after(zs, conv0, ups) =~= zs);
    assert(jacobi_conv_after(conv0, ups) =~= Seq::new(zs.len(), |i: int| true));
}

/// Through the whole Jacobi run: the root count is kept, a set flag stays
/// set, the reported pass index never exceeds the budget, and the budget
/// is reported exactly when the tolerance was never met.
pub proof fn lemma_jacobi_run_shape(
    coeffs: Seq<Fp>,
    pb: Seq<Fp>,
    tol: Fp,
    zs: Seq<Cplx>,
    conv: Seq<bool>,
    iter: int,
    max: int,
)
    requires
        conv.len() == zs.len(),
        0 <= iter <= max,
    ensures
        jacobi_run(coeffs, pb, tol, zs, conv, iter, max).zs.len() == zs.len(),
        jacobi_run(coeffs, pb, tol, zs, conv, iter, max).conv.len() == zs.len(),
        forall|k: int|
            0 <= k < zs.len() && conv[k] ==> jacobi_run(
                coeffs,
                pb,
                tol,
                zs,
                conv,
                iter,
                max,
            ).conv[k],
        iter <= jacobi_run(coeffs, pb, tol, zs, conv, iter, max).iters <= max,
        jacobi_run(coeffs, pb, tol, zs, conv, iter, max).ok <==> jacobi_run(
            coeffs,
            pb,
            tol,
            zs,
            conv,
            iter,
            max,
        ).iters < max,
    decreases max - iter,
{
    if iter < max {
        let ups = Seq::new(zs.len(), |i: int| jacobi_of(coeffs, pb, zs, conv[i], i));
        let t = fold_worst(ups, conv, zs.len() as int);
        let worst = if flt_of(ZERO_BITS, t) {
            t
        } else {
            ZERO_BITS
        };
        let zs2 = jacobi_zs_after(zs, conv, ups);
        let conv2 = jacobi_conv_after(conv, ups);
        assert(forall|k: int| 0 <= k < zs.len() && conv[k] ==> conv2[k]);
        if !flt_of(worst, tol) {
            lemma_jacobi_run_shape(coeffs, pb, tol, zs2, conv2, iter + 1, max);
        }
    }
}

} // verus!
