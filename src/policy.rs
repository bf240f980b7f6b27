//! The decisions of the per-q pipeline around its numerical steps: which
//! square-root factorization to attempt next, what to do when the
//! paraunitary transform is not finite, and which failures end the work on a
//! q-point. The numerical steps themselves are made by the caller, which
//! reports each outcome back.
use vstd::prelude::*;

verus! {

/// A numerical failure that ends the work on one q-point (and no other).
#[derive(Debug, Clone, Copy, PartialEq, Eq)]
pub enum QPointError {
    /// Neither Cholesky nor the indefinite factorization, even after a
    /// regularization of its diagonal, gave a finite square root.
    FactorizationFailure,
    /// The Hermitian eigensolver did not converge.
    EigendecompositionFailure,
}

/// The attempts at a square root `K` with `K K^dagger = H`, in the order in
/// which they are made.
#[derive(Debug, Clone, Copy, PartialEq, Eq)]
pub enum SqrtAttempt {
    /// Cholesky: succeeds when `H` is numerically positive definite.
    Cholesky,
    /// `P L D L^dagger P^dagger`, with `K = P^-1 L sqrt(D)`.
    Indefinite,
    /// The indefinite factor with a small shift added to its diagonal.
    RegularizedIndefinite,
}

/// What follows one attempt at a square root.
#[derive(Debug, Clone, Copy, PartialEq, Eq)]
pub enum SqrtStep {
    /// Use the factor that this attempt produced.
    Accept(SqrtAttempt),
    /// Make this attempt next.
    Attempt(SqrtAttempt),
    /// Give up on this q-point.
    Fail(QPointError),
}

/// The step after `attempt`, which produced a finite factor when `finite`.
///
/// A finite factor is accepted at once; otherwise Cholesky is followed by the
/// indefinite factorization, that by its regularized form, and that by a
/// `FactorizationFailure`.
pub fn next_sqrt_step(attempt: SqrtAttempt, finite: bool) -> (s: SqrtStep)
    ensures
        finite ==> s == SqrtStep::Accept(attempt),
        !finite ==> s == match attempt {
            SqrtAttempt::Cholesky => SqrtStep::Attempt(SqrtAttempt::Indefinite),
            SqrtAttempt::Indefinite => SqrtStep::Attempt(SqrtAttempt::RegularizedIndefinite),
            SqrtAttempt::RegularizedIndefinite => SqrtStep::Fail(QPointError::FactorizationFailure),
        },
{
    if finite {
        SqrtStep::Accept(attempt)
    } else {
        match attempt {
            SqrtAttempt::Cholesky => SqrtStep::Attempt(SqrtAttempt::Indefinite),
            SqrtAttempt::Indefinite => SqrtStep::Attempt(SqrtAttempt::RegularizedIndefinite),
            SqrtAttempt::RegularizedIndefinite => SqrtStep::Fail(QPointError::FactorizationFailure),
        }
    }
}

/// The solves of `K T = U sqrt(E)` for the paraunitary transform `T`.
#[derive(Debug, Clone, Copy, PartialEq, Eq)]
pub enum TransformSolve {
    /// With `K` as factored.
    Plain,
    /// With a small shift added to the diagonal of `K`.
    Regularized,
}

/// What follows one solve for `T`.
#[derive(Debug, Clone, Copy, PartialEq, Eq)]
pub enum TransformStep {
    /// Use the `T` that this solve produced.
    Use,
    /// Solve again with the regularized `K`.
    Retry(TransformSolve),
    /// Replace `T` by zeros: the intensities of this q-point become zero
    /// rather than non-finite. This is not reported as an error.
    Zero,
}

/// The step after `solve`, whose `T` had only finite entries when `finite`.
pub fn next_transform_step(solve: TransformSolve, finite: bool) -> (s: TransformStep)
    ensures
        finite ==> s == TransformStep::Use,
        !finite && solve == TransformSolve::Plain ==> s == TransformStep::Retry(
            TransformSolve::Regularized,
        ),
        !finite && solve == TransformSolve::Regularized ==> s == TransformStep::Zero,
{
    if finite {
        TransformStep::Use
    } else {
        match solve {
            TransformSolve::Plain => TransformStep::Retry(TransformSolve::Regularized),
            TransformSolve::Regularized => TransformStep::Zero,
        }
    }
}

} // verus!
