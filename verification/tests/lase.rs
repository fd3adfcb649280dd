use laser_solver::error::SolverError;
use laser_solver::lase::{GridPoints, classify_output, pump_scan};
use laser_solver::maths::picard::PicardError;
use laser_solver::maths::rootfind::RootFindError;

#[test]
fn pump_scan_marks_only_unbracketed_roots_as_below_threshold() {
    let samples = pump_scan(&[0.0, 1.0], |pump| {
        if pump == 0.0 {
            Err(RootFindError::RootNotBracketed.into())
        } else {
            Ok((2.0, 3.0))
        }
    })
    .unwrap();

    assert_eq!(samples, vec![None, Some((2.0, 3.0))]);
}

#[test]
fn pump_scan_propagates_picard_errors() {
    let result = pump_scan(&[0.0], |_| -> Result<(f64, f64), SolverError> {
        Err(SolverError::Picard(PicardError::DidNotConverge))
    });

    assert!(matches!(
        result,
        Err(SolverError::Picard(PicardError::DidNotConverge))
    ));
}

#[test]
fn pump_scan_stops_at_the_first_error() {
    let mut solved = Vec::new();
    let result = pump_scan(&[1_u32, 2, 3, 4], |pump| {
        solved.push(pump);
        if pump == 3 {
            Err(SolverError::ThresholdNotFound)
        } else {
            Ok(pump * 10)
        }
    });

    assert!(matches!(result, Err(SolverError::ThresholdNotFound)));
    assert_eq!(solved, vec![1, 2, 3]);
}

#[test]
fn pump_scan_of_nothing_is_empty() {
    let scan = pump_scan(&[] as &[u32], |pump| Ok::<u32, SolverError>(pump)).unwrap();

    assert!(scan.is_empty());
}

#[test]
fn classify_output_keeps_outputs() {
    assert_eq!(classify_output::<u32>(Ok(5)).unwrap(), Some(5));
}

#[test]
fn classify_output_treats_unbracketed_roots_as_below_threshold() {
    let result = classify_output::<u32>(Err(SolverError::RootFind(RootFindError::RootNotBracketed)));

    assert_eq!(result.unwrap(), None);
}

#[test]
fn classify_output_keeps_other_errors() {
    let result = classify_output::<u32>(Err(SolverError::RootFind(RootFindError::DidNotConverge)));

    assert!(matches!(
        result,
        Err(SolverError::RootFind(RootFindError::DidNotConverge))
    ));
}

#[test]
fn grid_points_hold_the_step_count() {
    let points = GridPoints(500);

    assert_eq!(points.0, 500);
}
