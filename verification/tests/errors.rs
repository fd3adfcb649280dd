use laser_solver::error::SolverError;
use laser_solver::maths::picard::PicardError;
use laser_solver::maths::rootfind::RootFindError;

#[test]
fn root_find_errors_convert_to_solver_errors() {
    let error: SolverError = RootFindError::DidNotConverge.into();

    assert!(matches!(error, SolverError::RootFind(RootFindError::DidNotConverge)));
}

#[test]
fn picard_errors_convert_to_solver_errors() {
    let error = SolverError::from(PicardError::DidNotConverge);

    assert!(matches!(error, SolverError::Picard(PicardError::DidNotConverge)));
}

#[test]
fn solver_error_messages_are_those_of_the_inner_errors() {
    assert_eq!(
        SolverError::RootFind(RootFindError::RootNotBracketed).message(),
        "root is not bracketed"
    );
    assert_eq!(
        SolverError::RootFind(RootFindError::DidNotConverge).message(),
        "root finder did not converge"
    );
    assert_eq!(
        SolverError::Picard(PicardError::DidNotConverge).message(),
        "picard iteration did not converge"
    );
    assert_eq!(SolverError::ThresholdNotFound.message(), "threshold not found");
}

#[test]
fn only_wrapped_errors_have_a_source() {
    assert!(SolverError::RootFind(RootFindError::DidNotConverge).has_source());
    assert!(SolverError::Picard(PicardError::DidNotConverge).has_source());
    assert!(!SolverError::ThresholdNotFound.has_source());
}
