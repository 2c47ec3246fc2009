//! Simultaneous root finding for real-coefficient polynomials by Aberth's
//! method: Horner evaluation, circle-of-guesses seeding, and two iteration
//! drivers (a Gauss-Seidel sweep and a snapshot-based Jacobi sweep whose
//! per-root work is fanned out across threads).
//!
//! Doubles are carried as IEEE-754 bit patterns (see [`fp`]); every
//! floating-point operation is an uninterpreted pure function of its operand
//! bits, so each driver's result is pinned down exactly by its contract.

use vstd::prelude::*;

pub mod fp;
pub mod cplx;
pub mod eval;
pub mod init;
pub mod model;
pub mod gauss_seidel;
pub mod jacobi;
pub mod laws;

pub use crate::fp::{Fp, ZERO_BITS, TAU_BITS};
pub use crate::cplx::Cplx;
pub use crate::eval::{horner_eval_f, horner_eval_c};
pub use crate::init::initial_aberth;
pub use crate::model::{Options, micro_tol_exec};
pub use crate::gauss_seidel::aberth;
pub use crate::jacobi::aberth_mt;

verus! {

/// A demand on the input that the caller did not meet.
#[derive(Clone, Copy, PartialEq, Eq, Structural, Debug)]
pub enum AberthError {
    /// The coefficient sequence is too short to name a polynomial of the
    /// required degree.
    InvalidDegree,
}

} // verus!
