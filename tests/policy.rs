use spinwave::policy::{
    next_sqrt_step, next_transform_step, QPointError, SqrtAttempt, SqrtStep, TransformSolve,
    TransformStep,
};

#[test]
fn finite_cholesky_factor_is_accepted() {
    assert_eq!(
        next_sqrt_step(SqrtAttempt::Cholesky, true),
        SqrtStep::Accept(SqrtAttempt::Cholesky)
    );
}

#[test]
fn failed_cholesky_falls_back_to_indefinite() {
    assert_eq!(
        next_sqrt_step(SqrtAttempt::Cholesky, false),
        SqrtStep::Attempt(SqrtAttempt::Indefinite)
    );
}

#[test]
fn finite_indefinite_factor_is_accepted() {
    assert_eq!(
        next_sqrt_step(SqrtAttempt::Indefinite, true),
        SqrtStep::Accept(SqrtAttempt::Indefinite)
    );
}

#[test]
fn non_finite_indefinite_factor_is_regularized() {
    assert_eq!(
        next_sqrt_step(SqrtAttempt::Indefinite, false),
        SqrtStep::Attempt(SqrtAttempt::RegularizedIndefinite)
    );
}

#[test]
fn regularized_factor_is_accepted_when_finite() {
    assert_eq!(
        next_sqrt_step(SqrtAttempt::RegularizedIndefinite, true),
        SqrtStep::Accept(SqrtAttempt::RegularizedIndefinite)
    );
}

#[test]
fn every_factorization_failing_is_a_factorization_failure() {
    assert_eq!(
        next_sqrt_step(SqrtAttempt::RegularizedIndefinite, false),
        SqrtStep::Fail(QPointError::FactorizationFailure)
    );
}

#[test]
fn full_run_of_failures_takes_three_attempts() {
    let mut attempt = SqrtAttempt::Cholesky;
    let mut made = 1;
    loop {
        match next_sqrt_step(attempt, false) {
            SqrtStep::Attempt(next) => {
                attempt = next;
                made += 1;
            }
            SqrtStep::Fail(e) => {
                assert_eq!(e, QPointError::FactorizationFailure);
                break;
            }
            SqrtStep::Accept(_) => panic!("nothing was finite"),
        }
    }
    assert_eq!(made, 3);
}

#[test]
fn finite_transform_is_used() {
    assert_eq!(next_transform_step(TransformSolve::Plain, true), TransformStep::Use);
    assert_eq!(next_transform_step(TransformSolve::Regularized, true), TransformStep::Use);
}

#[test]
fn non_finite_transform_is_solved_again_regularized() {
    assert_eq!(
        next_transform_step(TransformSolve::Plain, false),
        TransformStep::Retry(TransformSolve::Regularized)
    );
}

#[test]
fn non_finite_transform_after_retry_is_zeroed() {
    assert_eq!(
        next_transform_step(TransformSolve::Regularized, false),
        TransformStep::Zero
    );
}
