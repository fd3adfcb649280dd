use laser_solver::maths::picard::{PicardError, PicardSolver};

/// The acceptance rule the solvers apply to a convergence error.
fn accepts(error: f64) -> bool {
    error <= 1.0
}

#[test]
fn creates_a_constant_initial_profile() {
    let solver = PicardSolver::filled(3, "initial".to_owned());

    assert_eq!(solver.profile(), ["initial", "initial", "initial"]);
}

#[test]
fn picard_step_receives_new_previous_old_current_and_interval_index() {
    let initial = vec![1.0, 2.0, 3.0];
    let mut solver = PicardSolver::from_initial(initial);
    let mut steps = Vec::new();

    solver
        .solve(
            1,
            |current| {
                assert_eq!(current, [1.0, 2.0, 3.0]);
                10.0
            },
            |new_previous, old_current, i| {
                steps.push((*new_previous, *old_current, i));
                new_previous + 1.0
            },
            |current, previous| {
                assert_eq!(current, [10.0, 11.0, 12.0]);
                assert_eq!(previous, [1.0, 2.0, 3.0]);
                accepts(0.0)
            },
        )
        .expect("error callback should accept the first Picard iteration");

    assert_eq!(steps, vec![(10.0, 1.0, 0), (11.0, 2.0, 1)]);
    assert_eq!(solver.profile(), [10.0, 11.0, 12.0]);
}

#[test]
fn supports_non_copy_states() {
    let mut solver = PicardSolver::from_initial(vec!["old 0".to_owned(), "old 1".to_owned()]);

    solver
        .solve(
            1,
            |_| "new 0".to_owned(),
            |new_previous, old_current, _| format!("{new_previous}; {old_current}"),
            |_, _| accepts(0.0),
        )
        .unwrap();

    assert_eq!(solver.profile(), ["new 0", "new 0; old 0"]);
}

#[test]
fn relaxed_solve_blends_raw_profile_with_current_profile_in_place() {
    let mut solver = PicardSolver::from_initial(vec![0.0, 0.0]);
    let result = solver.solve_relaxed(
        2,
        |_| 4.0,
        |new_previous, _, _| new_previous + 4.0,
        |_, _| accepts(2.0),
        |new, current| 0.5 * (*new + *current),
    );

    assert!(matches!(result, Err(PicardError::DidNotConverge)));
    assert_eq!(solver.profile(), [3.0, 6.0]);
}

#[test]
fn relaxed_solve_checks_raw_profile_before_relaxing() {
    let mut solver = PicardSolver::from_initial(vec![0.0_f64]);
    let mut relaxation_calls = 0;

    let result = solver.solve_relaxed(
        1,
        |_| 1.0,
        |_, _, _| unreachable!(),
        |new, current| accepts((new[0] - current[0]).abs()),
        |new, _| {
            relaxation_calls += 1;
            *new
        },
    );

    assert!(result.is_ok());
    assert_eq!(relaxation_calls, 0);
    assert_eq!(solver.profile(), [1.0]);
}

#[test]
fn zero_iterations_leave_the_profile_unchanged() {
    let mut solver = PicardSolver::from_initial(vec![1_u32, 2, 3]);
    let result = solver.solve(0, |_| 7, |previous, _, _| previous + 1, |_, _| true);

    assert!(matches!(result, Err(PicardError::DidNotConverge)));
    assert_eq!(solver.profile(), [1, 2, 3]);
}

#[test]
fn rejected_sweeps_become_the_current_profile() {
    let mut solver = PicardSolver::from_initial(vec![0_u32, 0]);
    let mut sweeps = 0;
    let result = solver.solve(
        5,
        |current| current[1] + 1,
        |previous, _, _| previous * 2,
        |_, _| {
            sweeps += 1;
            sweeps == 3
        },
    );

    // sweeps: [1, 2] rejected, [3, 6] rejected, [7, 14] accepted
    assert_eq!(result.unwrap(), [7, 14]);
    assert_eq!(solver.profile(), [7, 14]);
}

#[test]
fn exhausted_relaxed_solve_keeps_the_last_blend() {
    let mut solver = PicardSolver::from_initial(vec![10_i64]);
    let result = solver.solve_relaxed(
        3,
        |_| 0,
        |_, _, _| unreachable!(),
        |_, _| false,
        |new, current| (new + current) / 2,
    );

    // blends: 5, 2, 1
    assert!(matches!(result, Err(PicardError::DidNotConverge)));
    assert_eq!(solver.profile(), [1]);
}

#[test]
fn picard_error_message() {
    assert_eq!(PicardError::DidNotConverge.message(), "picard iteration did not converge");
}
