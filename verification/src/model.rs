//! Pieces shared by the two iteration drivers: the configuration, the
//! per-call micro-tolerance, the derivative coefficients, the Aberth
//! repulsion sum, and the shape of a finished run.

use vstd::prelude::*;
use crate::fp::{Fp, fmul_of, fdiv_of, fp_of_int_of, fmul, fdiv, fp_of_int};
use crate::cplx::{Cplx, csub_of, cdiv_of, csub, cdiv};

verus! {

/// Convergence settings for either driver.
pub struct Options {
    /// Upper bound on the number of passes; must be positive for the
    /// driver to do any work.
    pub max_iters: usize,
    /// Pass-wide tolerance: the run stops as soon as the largest residual
    /// of a pass falls below it.
    pub tol: Fp,
}

impl Default for Options {
    /// Two thousand passes, and a tolerance of the double nearest 10^-12
    /// (one divided by a million millions, correctly rounded).
    fn default() -> (r: Options)
        ensures
            r.max_iters == 2000,
            r.tol == fdiv_of(fp_of_int_of(1), fp_of_int_of(1000000000000)),
    {
        Options { max_iters: 2000, tol: fdiv(fp_of_int(1), fp_of_int(1000000000000)) }
    }
}

/// The per-root micro-tolerance, the double nearest 10^-15: a root whose
/// residual falls below it is frozen. One divided by the exactly
/// representable 10^15 rounds to the same double as the literal would.
pub open spec fn micro_tol() -> Fp {
    fdiv_of(fp_of_int_of(1), fp_of_int_of(1000000000000000))
}

/// Compute the micro-tolerance at driver entry.
pub fn micro_tol_exec() -> (r: Fp)
    ensures
        r == micro_tol(),
{
    fdiv(fp_of_int(1), fp_of_int(1000000000000000))
}

/// The derivative's coefficients in the same highest-degree-first layout:
/// entry `i` is `coeffs[i] * (degree - i)`.
pub open spec fn deriv_of(coeffs: Seq<Fp>) -> Seq<Fp>
    recommends
        coeffs.len() >= 2,
{
    Seq::new((coeffs.len() - 1) as nat, |i: int| fmul_of(
        coeffs[i],
        fp_of_int_of((coeffs.len() - 1 - i) as u64),
    ))
}

/// Compute the derivative coefficients once, at driver entry.
pub fn deriv_coeffs(coeffs: &[Fp]) -> (r: Vec<Fp>)
    requires
        coeffs@.len() >= 2,
    ensures
        r@ == deriv_of(coeffs@),
{
    let degree: usize = coeffs.len() - 1;
    let mut pb: Vec<Fp> = Vec::new();
    let mut i: usize = 0;
    while i < degree
        invariant
            i <= degree,
            degree == coeffs@.len() - 1,
            pb@.len() == i,
            forall|j: int| 0 <= j < i ==> pb@[j] == deriv_of(coeffs@)[j],
        decreases degree - i,
    {
        pb.push(fmul(coeffs[i], fp_of_int((degree - i) as u64)));
        i = i + 1;
    }
    proof {
        assert(pb@ =~= deriv_of(coeffs@));
    }
    pb
}

/// The Aberth repulsion sum folded over the first `j` neighbors: starting
/// from `acc` (the derivative value), subtract `pp / (zi - zs[k])` for each
/// `k < j` other than `i` itself, in ascending order of `k`.
pub open spec fn repel_of(acc: Cplx, pp: Cplx, zi: Cplx, zs: Seq<Cplx>, i: int, j: int) -> Cplx
    recommends
        j <= zs.len(),
    decreases j,
{
    if j <= 0 {
        acc
    } else {
        let prev = repel_of(acc, pp, zi, zs, i, j - 1);
        if j - 1 == i {
            prev
        } else {
            csub_of(prev, cdiv_of(pp, csub_of(zi, zs[j - 1])))
        }
    }
}

/// Fold the full repulsion sum for root `i` over every other entry of `zs`.
pub fn repel(acc: Cplx, pp: Cplx, zi: Cplx, zs: &Vec<Cplx>, i: usize) -> (r: Cplx)
    ensures
        r == repel_of(acc, pp, zi, zs@, i as int, zs@.len() as int),
{
    let n: usize = zs.len();
    let mut a: Cplx = acc;
    let mut j: usize = 0;
    while j < n
        invariant
            j <= n,
            n == zs@.len(),
            a == repel_of(acc, pp, zi, zs@, i as int, j as int),
        decreases n - j,
    {
        if j != i {
            a = csub(a, cdiv(pp, csub(zi, zs[j])));
        }
        j = j + 1;
    }
    a
}

/// What a finished run reports: the pass index on which it stopped,
/// whether the tolerance was met, and the final roots and flags.
pub ghost struct RunOut {
    pub iters: int,
    pub ok: bool,
    pub zs: Seq<Cplx>,
    pub conv: Seq<bool>,
}

} // verus!
