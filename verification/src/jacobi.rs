//! The data-parallel Aberth driver: Jacobi passes over a snapshot.
//!
//! Before each pass the root collection is copied; every residual,
//! derivative and repulsion term of the pass reads only that snapshot, so
//! the per-root work is independent and is fanned out across worker
//! threads. Each task owns one root slot and one convergence flag; the
//! updates and residuals are gathered afterwards in one sequential commit
//! sweep, and the pass maximum folds only the residuals of roots that
//! stayed active. A root whose residual crosses the micro-tolerance is
//! frozen at once and left uncorrected. Because neighbor values are one
//! pass stale, more passes than the Gauss-Seidel driver needs are expected.
//! As in the sequential driver, a near-zero correction denominator is not
//! guarded: the step divides by it regardless.

use vstd::prelude::*;
use rayon::iter::{IntoParallelIterator, ParallelIterator};
use crate::fp::{Fp, flt_of, fmax_of, flt, fmax, ZERO_BITS};
use crate::cplx::{Cplx, csub_of, cdiv_of, cl1_of, csub, cdiv, cl1};
use crate::eval::{horner_cx, horner_c_unchecked};
use crate::model::{Options, RunOut, micro_tol, micro_tol_exec, deriv_of, deriv_coeffs,
    repel_of, repel};
use crate::AberthError;

verus! {

/// What one Jacobi task reports for its root: the slot's next value,
/// whether the root froze this pass, and the residual it contributes to
/// the pass maximum (`None` for a frozen root).
#[derive(Clone, Copy, Debug)]
pub struct Update {
    pub z: Cplx,
    pub converged: bool,
    pub residual: Option<Fp>,
}

/// One Jacobi task, as a function of the pass snapshot alone.
///
/// A root already frozen stays put. An active root whose residual falls
/// below the micro-tolerance freezes, keeps its value, and contributes no
/// residual; any other active root takes the Aberth step computed from the
/// snapshot and contributes its residual.
pub open spec fn jacobi_of(
    coeffs: Seq<Fp>,
    pb: Seq<Fp>,
    snap: Seq<Cplx>,
    was_conv: bool,
    i: int,
) -> Update
    recommends
        0 <= i < snap.len(),
{
    if was_conv {
        Update { z: snap[i], converged: true, residual: None }
    } else {
        let zi = snap[i];
        let pp = horner_cx(coeffs, zi);
        let ti = cl1_of(pp);
        if flt_of(ti, micro_tol()) {
            Update { z: zi, converged: true, residual: None }
        } else {
            let den = repel_of(horner_cx(pb, zi), pp, zi, snap, i, snap.len() as int);
            Update { z: csub_of(zi, cdiv_of(pp, den)), converged: false, residual: Some(ti) }
        }
    }
}

/// Compute one Jacobi task; this is the whole body a worker thread runs.
pub fn jacobi_task(coeffs: &[Fp], pb: &[Fp], snap: &Vec<Cplx>, was_conv: bool, i: usize) -> (r:
    Update)
    requires
        coeffs@.len() >= 2,
        pb@.len() == coeffs@.len() - 1,
        i < snap@.len(),
    ensures
        r == jacobi_of(coeffs@, pb@, snap@, was_conv, i as int),
{
    if was_conv {
        return Update { z: snap[i], converged: true, residual: None };
    }
    let zi: Cplx = snap[i];
    let pp: Cplx = horner_c_unchecked(coeffs, zi);
    let ti: Fp = cl1(pp);
    let micro: Fp = micro_tol_exec();
    if flt(ti, micro) {
        Update { z: zi, converged: true, residual: None }
    } else {
        let acc: Cplx = horner_c_unchecked(pb, zi);
        let den: Cplx = repel(acc, pp, zi, snap, i);
        Update { z: csub(zi, cdiv(pp, den)), converged: false, residual: Some(ti) }
    }
}

/// Relies on rayon: an indexed parallel iterator over `0..snap.len()`,
/// mapped and collected into a `Vec`, keeps index order, so entry `i` is
/// what the closure returns for `i`; the closure only reads the shared
/// snapshot and calls the verified [`jacobi_task`].
#[verifier::external_body]
fn jacobi_pass_tasks(coeffs: &[Fp], pb: &[Fp], snap: &Vec<Cplx>, conv: &Vec<bool>) -> (r: Vec<
    Update,
>)
    requires
        coeffs@.len() >= 2,
        pb@.len() == coeffs@.len() - 1,
        conv@.len() == snap@.len(),
    ensures
        r@.len() == snap@.len(),
        forall|i: int|
            0 <= i < snap@.len() ==> r@[i] == jacobi_of(coeffs@, pb@, snap@, conv@[i], i),
{
    (0..snap.len()).into_par_iter().map(|i| jacobi_task(coeffs, pb, snap, conv[i], i)).collect()
}

/// The pass maximum over the first `n` tasks: the residuals of roots that
/// were active and stayed active, folded with `f64::max` from zero in
/// ascending index order.
pub open spec fn fold_worst(ups: Seq<Update>, conv: Seq<bool>, n: int) -> Fp
    recommends
        n <= ups.len(),
        conv.len() == ups.len(),
    decreases n,
{
    if n <= 0 {
        ZERO_BITS
    } else {
        let prev = fold_worst(ups, conv, n - 1);
        if conv[n - 1] {
            prev
        } else {
            match ups[n - 1].residual {
                Some(t) => fmax_of(prev, t),
                None => prev,
            }
        }
    }
}

/// The roots after committing a pass: a frozen root keeps its slot, every
/// other slot takes its task's value.
pub open spec fn jacobi_zs_after(zs: Seq<Cplx>, conv: Seq<bool>, ups: Seq<Update>) -> Seq<Cplx>
    recommends
        conv.len() == zs.len(),
        ups.len() == zs.len(),
{
    Seq::new(zs.len(), |i: int| if conv[i] { zs[i] } else { ups[i].z })
}

/// The convergence flags after committing a pass: monotone, a flag once
/// set stays set.
pub open spec fn jacobi_conv_after(conv: Seq<bool>, ups: Seq<Update>) -> Seq<bool>
    recommends
        ups.len() == conv.len(),
{
    Seq::new(conv.len(), |i: int| conv[i] || ups[i].converged)
}

/// The outcome of running Jacobi passes from pass index `iter` up to the
/// budget `max`: each pass maps every root from the snapshot, commits, and
/// stops with success when the folded pass maximum (floored at zero) falls
/// below `tol`; failure when the budget is exhausted.
pub open spec fn jacobi_run(
    coeffs: Seq<Fp>,
    pb: Seq<Fp>,
    tol: Fp,
    zs: Seq<Cplx>,
    conv: Seq<bool>,
    iter: int,
    max: int,
) -> RunOut
    recommends
        conv.len() == zs.len(),
    decreases max - iter,
{
    if iter >= max {
        RunOut { iters: max, ok: false, zs: zs, conv: conv }
    } else {
        let ups = Seq::new(zs.len(), |i: int| jacobi_of(coeffs, pb, zs, conv[i], i));
        let t = fold_worst(ups, conv, zs.len() as int);
        let worst = if flt_of(ZERO_BITS, t) {
            t
        } else {
            ZERO_BITS
        };
        let zs2 = jacobi_zs_after(zs, conv, ups);
        let conv2 = jacobi_conv_after(conv, ups);
        if flt_of(worst, tol) {
            RunOut { iters: iter, ok: true, zs: zs2, conv: conv2 }
        } else {
            jacobi_run(coeffs, pb, tol, zs2, conv2, iter + 1, max)
        }
    }
}

/// Refine the root estimates in place by snapshot-based Jacobi passes of
/// Aberth's method, the per-root work fanned out across worker threads.
///
/// For a coefficient sequence of length at least two, the mutated roots,
/// the pass count and the convergence flag are exactly what [`jacobi_run`]
/// says of the inputs, with all roots initially active; a shorter sequence
/// is rejected with `InvalidDegree` and the roots are left untouched.
pub fn aberth_mt(coeffs: &[Fp], zs: &mut Vec<Cplx>, options: &Options) -> (r: Result<
    (usize, bool),
    AberthError,
>)
    ensures
        coeffs@.len() < 2 ==> r == Err::<(usize, bool), AberthError>(AberthError::InvalidDegree)
            && final(zs)@ == old(zs)@,
        coeffs@.len() >= 2 ==> {
            let out = jacobi_run(
                coeffs@,
                deriv_of(coeffs@),
                options.tol,
                old(zs)@,
                Seq::new(old(zs)@.len(), |i: int| false),
                0,
                options.max_iters as int,
            );
            &&& r is Ok
            &&& r->Ok_0.0 == out.iters
            &&& r->Ok_0.1 == out.ok
            &&& final(zs)@ == out.zs
            &&& final(zs)@.len() == old(zs)@.len()
        },
{
    if coeffs.len() < 2 {
        return Err(AberthError::InvalidDegree);
    }
    let ghost zs0: Seq<Cplx> = zs@;
    let ghost conv0: Seq<bool> = Seq::new(zs@.len(), |i: int| false);
    let m: usize = zs.len();
    let max: usize = options.max_iters;
    let pb: Vec<Fp> = deriv_coeffs(coeffs);
    let mut conv: Vec<bool> = Vec::new();
    while conv.len() < m
        invariant
            conv@.len() <= m,
            forall|j: int| 0 <= j < conv@.len() ==> conv@[j] == false,
        decreases m - conv.len(),
    {
        conv.push(false);
    }
    proof {
        assert(conv@ =~= conv0);
    }
    let mut niter: usize = 0;
    while niter < max
        invariant
            niter <= max,
            coeffs@.len() >= 2,
            pb@ == deriv_of(coeffs@),
            zs@.len() == m,
            conv@.len() == m,
            max == options.max_iters,
            m == old(zs)@.len(),
            zs0 == old(zs)@,
            conv0 == Seq::new(old(zs)@.len(), |i: int| false),
            jacobi_run(coeffs@, pb@, options.tol, zs0, conv0, 0, max as int) == jacobi_run(
                coeffs@,
                pb@,
                options.tol,
                zs@,
                conv@,
                niter as int,
                max as int,
            ),
        decreases max - niter,
    {
        let ghost pass_zs: Seq<Cplx> = zs@;
        let ghost pass_conv: Seq<bool> = conv@;
        let mut snap: Vec<Cplx> = Vec::new();
        let mut i: usize = 0;
        while i < m
            invariant
                i <= m,
                zs@.len() == m,
                zs@ == pass_zs,
                snap@.len() == i,
                forall|j: int| 0 <= j < i ==> snap@[j] == pass_zs[j],
            decreases m - i,
        {
            snap.push(zs[i]);
            i = i + 1;
        }
        proof {
            assert(snap@ =~= pass_zs);
        }
        let ups: Vec<Update> = jacobi_pass_tasks(coeffs, &pb, &snap, &conv);
        let ghost ups_spec: Seq<Update> = Seq::new(
            pass_zs.len(),
            |i: int| jacobi_of(coeffs@, pb@, pass_zs, pass_conv[i], i),
        );
        proof {
            assert(ups@ =~= ups_spec);
        }
        let mut worst: Fp = ZERO_BITS;
        let mut j: usize = 0;
        while j < m
            invariant
                j <= m,
                zs@.len() == m,
                conv@.len() == m,
                pass_zs.len() == m,
                pass_conv.len() == m,
                ups@.len() == m,
                ups@ == ups_spec,
                forall|k: int| 0 <= k < j ==> zs@[k] == jacobi_zs_after(pass_zs, pass_conv,
                    ups_spec)[k],
                forall|k: int| j <= k < m ==> zs@[k] == pass_zs[k],
                forall|k: int| 0 <= k < j ==> conv@[k] == jacobi_conv_after(pass_conv,
                    ups_spec)[k],
                forall|k: int| j <= k < m ==> conv@[k] == pass_conv[k],
                worst == fold_worst(ups_spec, pass_conv, j as int),
            decreases m - j,
        {
            if !conv[j] {
                let u: Update = ups[j];
                zs.set(j, u.z);
                if u.converged {
                    conv.set(j, true);
                }
                match u.residual {
                    Some(t) => {
                        worst = fmax(worst, t);
                    },
                    None => {},
                }
            }
            j = j + 1;
        }
        proof {
            assert(zs@ =~= jacobi_zs_after(pass_zs, pass_conv, ups_spec));
            assert(conv@ =~= jacobi_conv_after(pass_conv, ups_spec));
        }
        let zero: Fp = ZERO_BITS;
        let tol_pass: Fp = if flt(zero, worst) {
            worst
        } else {
            zero
        };
        proof {
            assert(jacobi_run(coeffs@, pb@, options.tol, pass_zs, pass_conv, niter as int,
                max as int) == if flt_of(tol_pass, options.tol) {
                RunOut { iters: niter as int, ok: true, zs: zs@, conv: conv@ }
            } else {
                jacobi_run(coeffs@, pb@, options.tol, zs@, conv@, niter as int + 1, max as int)
            });
        }
        if flt(tol_pass, options.tol) {
            return Ok((niter, true));
        }
        niter = niter + 1;
    }
    Ok((max, false))
}

} // verus!
