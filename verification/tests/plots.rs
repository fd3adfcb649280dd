use laser_solver::dfb::LaserParameters;
use laser_solver::error::SolverError;
use laser_solver::plotter::{COLOUR_COUNT, Plotter};
use std::time::Duration;
use laser_solver::views::{AmplifierView, DfbView};

#[test]
fn dfb_views_have_distinct_plot_ids() {
    assert_eq!(DfbView::Profile.plot_id(), "profile-plot");
    assert_eq!(DfbView::Populations.plot_id(), "population-plot");
    assert_eq!(DfbView::Kappa.plot_id(), "kappa-plot");
    assert_eq!(DfbView::Threshold.plot_id(), "threshold-plot");
    assert_eq!(DfbView::PiPosition.plot_id(), "pi-position-output-plot");
    assert_eq!(DfbView::PiPositionThreshold.plot_id(), "pi-position-threshold-plot");
    assert_eq!(DfbView::default(), DfbView::Profile);
}

#[test]
fn amplifier_view_plot_id() {
    assert_eq!(AmplifierView::Profile.plot_id(), "profile-plot");
    assert_eq!(AmplifierView::default(), AmplifierView::Profile);
}

#[test]
fn kappa_plot_pairs_each_step_start_with_its_coupling() {
    let mut parameters = LaserParameters { physics: 10.0_f64, steps: 4, compute_time: None };

    let plot = parameters.kappa_plot(|length: &f64, steps| {
        let positions: Vec<f64> = (0..=steps).map(|i| *length * i as f64 / steps as f64).collect();
        (positions, vec![2.0, 2.0, -3.0, -3.0])
    });

    assert_eq!(plot.series().len(), 1);
    assert_eq!(
        plot.series()[0].points(),
        [[0.0, 2.0], [2.5, 2.0], [5.0, -3.0], [7.5, -3.0]]
    );
    assert_eq!(plot.series()[0].label_str(), Some("Kappa"));
    assert_eq!(plot.x_label(), "Position (m)");
    assert_eq!(plot.y_label(), "Kappa (1/m)");
    assert!(plot.vertical_lines().is_empty());
    assert!(plot.x_limits().is_none());
}

#[test]
fn pi_pos_threshold_plot_skips_failed_solves() {
    let positions = [0.0, 0.5, 1.0];
    let mut asked = Vec::new();
    let mut parameters = LaserParameters { physics: 1_000.0_f64, steps: 7, compute_time: None };

    let plot = parameters.pi_pos_threshold_plot(
        &positions,
        0.45,
        (0.0, 1.0),
        |scale, steps, position| {
            assert_eq!(steps, 7);
            asked.push(position);
            if position == 0.5 {
                Err(SolverError::ThresholdNotFound)
            } else {
                Ok(scale * position + 1.0)
            }
        },
    );

    assert_eq!(asked, vec![0.0, 0.5, 1.0]);
    assert_eq!(plot.series()[0].points(), [[0.0, 1.0], [1.0, 1001.0]]);
    assert_eq!(plot.series()[0].label_str(), Some("Threshold"));
    assert_eq!(plot.vertical_lines().len(), 1);
    assert_eq!(plot.vertical_lines()[0].value(), 0.45);
    assert_eq!(plot.vertical_lines()[0].label_str(), Some("Current position"));
    assert_eq!(plot.x_label(), "Pi shift position");
    assert_eq!(plot.y_label(), "Threshold pump power (mW)");
    assert_eq!(plot.x_limits(), Some((0.0, 1.0)));
}

#[test]
fn pi_pos_plot_splits_forward_and_backward_outputs() {
    let positions = [0.25, 0.5, 0.75];
    let mut parameters = LaserParameters { physics: 2.0_f64, steps: 3, compute_time: None };

    let plot = parameters.pi_pos_plot(
        &positions,
        0.5,
        (0.0, 1.0),
        |ratio, _, position| {
            let elapsed = Duration::from_millis(10);
            if position == 0.75 {
                (Err(SolverError::ThresholdNotFound), elapsed)
            } else {
                (Ok((position, ratio * position)), elapsed)
            }
        },
    );

    assert_eq!(plot.series().len(), 2);
    assert_eq!(plot.series()[0].points(), [[0.25, 0.25], [0.5, 0.5]]);
    assert_eq!(plot.series()[1].points(), [[0.25, 0.5], [0.5, 1.0]]);
    assert_eq!(plot.series()[0].label_str(), Some("Forward"));
    assert_eq!(plot.series()[1].label_str(), Some("Backward"));
    assert_eq!(plot.y_label(), "Output power");
    assert_eq!(plot.vertical_lines()[0].value(), 0.5);
    assert_eq!(parameters.compute_time, Some(Duration::from_millis(30)));
    assert_eq!(parameters.physics, 2.0);
    assert_eq!(parameters.steps, 3);
}

#[test]
fn plotter_records_lines_and_labels_in_order() {
    let mut plot = Plotter::new();
    plot.plot(&[1, 2], &[3, 4]).label("first");
    plot.add_points(vec![[5, 6]]);
    plot.axhline(7).label("level");
    plot.axvline(8);
    plot.xlabel("x");
    plot.ylabel("y");
    plot.title("t");
    plot.xlim(0, 9);

    assert_eq!(plot.series().len(), 2);
    assert_eq!(plot.series()[0].points(), [[1, 3], [2, 4]]);
    assert_eq!(plot.series()[0].label_str(), Some("first"));
    assert_eq!(plot.series()[1].points(), [[5, 6]]);
    assert_eq!(plot.series()[1].label_str(), None);
    assert_eq!(plot.horizontal_lines()[0].value(), 7);
    assert_eq!(plot.horizontal_lines()[0].label_str(), Some("level"));
    assert_eq!(plot.vertical_lines()[0].value(), 8);
    assert_eq!(plot.vertical_lines()[0].label_str(), None);
    assert_eq!(plot.title_str(), "t");
    assert_eq!(plot.x_limits(), Some((0, 9)));
}

fn milliwatt_point(pump: f64, output: Option<f64>) -> [f64; 2] {
    [1_000.0 * pump, 1_000.0 * output.unwrap_or(0.0).abs()]
}

#[test]
fn threshold_plot_scales_outputs_and_zeroes_points_below_threshold() {
    let mut parameters = LaserParameters { physics: (), steps: 12, compute_time: None };
    let pumps = [0.001, 0.002];

    let plot = parameters
        .threshold_plot(
            &pumps,
            1.5,
            (1.0, 2.0),
            |_, steps, scanned: &[f64]| {
                assert_eq!(steps, 12);
                assert_eq!(scanned, [0.001, 0.002]);
                Ok(vec![None, Some((0.003, -0.004))])
            },
            milliwatt_point,
        )
        .unwrap();

    assert_eq!(plot.series()[0].points(), [[1.0, 0.0], [2.0, 3.0]]);
    assert_eq!(plot.series()[1].points(), [[1.0, 0.0], [2.0, 4.0]]);
    assert_eq!(plot.series()[0].label_str(), Some("Forward"));
    assert_eq!(plot.series()[1].label_str(), Some("Backward"));
    assert_eq!(plot.vertical_lines()[0].value(), 1.5);
    assert_eq!(plot.vertical_lines()[0].label_str(), Some("Current pump"));
    assert_eq!(plot.x_label(), "Pump power (mW)");
    assert_eq!(plot.y_label(), "Output power (mW)");
    assert_eq!(plot.x_limits(), Some((1.0, 2.0)));
}

#[test]
fn threshold_plot_passes_scan_errors_on() {
    let mut parameters = LaserParameters { physics: (), steps: 12, compute_time: None };

    let plot = parameters.threshold_plot(
        &[0.001],
        1.0,
        (0.0, 1.0),
        |_, _, _| Err(SolverError::ThresholdNotFound),
        milliwatt_point,
    );

    assert!(matches!(plot, Err(SolverError::ThresholdNotFound)));
}

#[test]
fn pops_plot_pairs_positions_with_each_population() {
    let mut parameters = LaserParameters { physics: (), steps: 1, compute_time: None };

    let plot = parameters
        .pops_plot(|_, _| Ok((vec![0.0, 5.0], vec![(0.75, 0.25), (0.5, 0.5)])))
        .unwrap();

    assert_eq!(plot.series()[0].points(), [[0.0, 0.75], [5.0, 0.5]]);
    assert_eq!(plot.series()[1].points(), [[0.0, 0.25], [5.0, 0.5]]);
    assert_eq!(plot.series()[0].label_str(), Some("Ground state"));
    assert_eq!(plot.series()[1].label_str(), Some("Excited state"));
    assert_eq!(plot.x_label(), "Position (m)");
    assert_eq!(plot.y_label(), "Population fraction");
}

#[test]
fn pops_plot_passes_solver_errors_on() {
    let mut parameters = LaserParameters { physics: (), steps: 1, compute_time: None };

    let plot = parameters.pops_plot(|_, _| -> Result<(Vec<f64>, Vec<(f64, f64)>), SolverError> {
        Err(SolverError::ThresholdNotFound)
    });

    assert!(matches!(plot, Err(SolverError::ThresholdNotFound)));
}

#[test]
fn profile_plot_has_one_series_per_field_power() {
    let mut parameters = LaserParameters { physics: (), steps: 1, compute_time: None };

    let plot = parameters
        .profile_plot(|_, _| {
            (
                Ok((vec![0.0, 1.0], vec![[1.0, 2.0, 3.0, 4.0], [5.0, 6.0, 7.0, 8.0]])),
                Duration::from_millis(7),
            )
        })
        .unwrap();

    let labels: Vec<Option<&str>> = plot.series().iter().map(|line| line.label_str()).collect();
    assert_eq!(
        labels,
        vec![
            Some("Forward signal"),
            Some("Backward signal"),
            Some("Forward pump"),
            Some("Backward pump")
        ]
    );
    assert_eq!(plot.series()[0].points(), [[0.0, 1.0], [1.0, 5.0]]);
    assert_eq!(plot.series()[3].points(), [[0.0, 4.0], [1.0, 8.0]]);
    assert_eq!(plot.x_label(), "Position (m)");
    assert_eq!(plot.y_label(), "Power (mW)");
    assert_eq!(parameters.compute_time, Some(Duration::from_millis(7)));
}

#[test]
fn profile_plot_records_the_solve_time_of_a_failed_solve() {
    let mut parameters = LaserParameters { physics: (), steps: 1, compute_time: None };

    let plot = parameters.profile_plot(|_, _| -> (Result<(Vec<f64>, Vec<[f64; 4]>), SolverError>, Duration) {
        (Err(SolverError::ThresholdNotFound), Duration::from_micros(250))
    });

    assert!(matches!(plot, Err(SolverError::ThresholdNotFound)));
    assert_eq!(parameters.compute_time, Some(Duration::from_micros(250)));
}

#[test]
fn pi_pos_plot_with_no_positions_takes_no_time() {
    let mut parameters = LaserParameters { physics: (), steps: 1, compute_time: Some(Duration::from_secs(3)) };

    let plot = parameters.pi_pos_plot(&[], 0.5, (0.0, 1.0), |_, _, _: f64| {
        (Ok((1.0, 1.0)), Duration::from_secs(1))
    });

    assert!(plot.series()[0].points().is_empty());
    assert_eq!(parameters.compute_time, Some(Duration::ZERO));
}

#[test]
fn kappa_plot_leaves_the_compute_time_alone() {
    let mut parameters = LaserParameters { physics: 4.0_f64, steps: 2, compute_time: Some(Duration::from_secs(2)) };

    parameters.kappa_plot(coupling_samples);

    assert_eq!(parameters.compute_time, Some(Duration::from_secs(2)));
}

#[test]
fn plotter_compute_time_starts_at_zero_and_can_be_set() {
    let mut plot: Plotter<f64> = Plotter::new();
    assert_eq!(plot.compute_time(), Duration::ZERO);

    plot.xlabel("x");
    plot.set_compute_time(Duration::from_millis(12));

    assert_eq!(plot.compute_time(), Duration::from_millis(12));
    assert_eq!(plot.x_label(), "x");
    assert!(plot.series().is_empty());
}

#[test]
fn line_colours_cycle_after_the_series() {
    let mut plot: Plotter<i32> = Plotter::new();
    for _ in 0..7 {
        plot.add_points(vec![[0, 0]]);
    }
    plot.axhline(1);
    plot.axhline(2);
    plot.axhline(3);
    plot.axvline(4);

    assert_eq!(COLOUR_COUNT, 10);
    assert_eq!(plot.series_colour(3), 3);
    assert_eq!(plot.series_colour(12), 2);
    assert_eq!(plot.horizontal_colour(0), 7);
    assert_eq!(plot.horizontal_colour(2), 9);
    assert_eq!(plot.vertical_colour(0), 0);
    assert_eq!(plot.vertical_colour(5), 5);
}

fn coupling_samples(length: &f64, steps: usize) -> (Vec<f64>, Vec<f64>) {
    let positions: Vec<f64> = (0..=steps).map(|i| *length * i as f64 / steps as f64).collect();
    let kappas: Vec<f64> = (0..steps).map(|i| if 2 * i < steps { 2.0 } else { -3.0 }).collect();
    (positions, kappas)
}

fn same_plot(first: &Plotter<f64>, second: &Plotter<f64>) -> bool {
    first.series().len() == second.series().len()
        && first
            .series()
            .iter()
            .zip(second.series())
            .all(|(a, b)| a.points() == b.points() && a.label_str() == b.label_str())
        && first.vertical_lines().len() == second.vertical_lines().len()
        && first
            .vertical_lines()
            .iter()
            .zip(second.vertical_lines())
            .all(|(a, b)| a.value() == b.value() && a.label_str() == b.label_str())
        && first.horizontal_lines().len() == second.horizontal_lines().len()
        && first.x_label() == second.x_label()
        && first.y_label() == second.y_label()
        && first.title_str() == second.title_str()
        && first.x_limits() == second.x_limits()
}

#[test]
fn kappa_plot_twice_gives_the_same_plot_and_keeps_the_parameters() {
    let mut parameters = LaserParameters { physics: 8.0_f64, steps: 4, compute_time: None };

    let first = parameters.kappa_plot(coupling_samples);
    let second = parameters.kappa_plot(coupling_samples);

    assert_eq!(parameters.physics, 8.0);
    assert_eq!(parameters.steps, 4);
    assert!(same_plot(&first, &second));
    assert_eq!(first.series()[0].points(), [[0.0, 2.0], [2.0, 2.0], [4.0, -3.0], [6.0, -3.0]]);
}

#[test]
fn threshold_plot_twice_gives_the_same_plot() {
    let mut parameters = LaserParameters { physics: (), steps: 12, compute_time: None };
    let pumps = [0.001, 0.002, 0.003];
    let scan = |_: &(), _: usize, scanned: &[f64]| -> Result<Vec<Option<(f64, f64)>>, SolverError> {
        Ok(scanned.iter().map(|&p| if p < 0.0015 { None } else { Some((p, -p / 2.0)) }).collect())
    };

    let first = parameters.threshold_plot(&pumps, 2.0, (1.0, 3.0), scan, milliwatt_point).unwrap();
    let second = parameters.threshold_plot(&pumps, 2.0, (1.0, 3.0), scan, milliwatt_point).unwrap();

    assert!(same_plot(&first, &second));
    assert_eq!(first.series()[0].points(), [[1.0, 0.0], [2.0, 2.0], [3.0, 3.0]]);
}
