//! The plot of the laser's output powers against the pump power.

use vstd::prelude::*;

use crate::dfb::LaserParameters;
use crate::error::SolverError;
use crate::kappa_plot::paired_len;
use crate::lase::PumpScan;
use crate::plotter::{PlotLine, Plotter, Points, ReferenceLine};

verus! {

/// One side of a scan entry: the forward output (when `backward_side` is false) or the backward
/// output (when it is true), or nothing below threshold.
pub open spec fn side_of<X>(entry: Option<(X, X)>, backward_side: bool) -> Option<X> {
    match entry {
        Some((forward, backward)) => Some(if backward_side { backward } else { forward }),
        None => None,
    }
}

/// What the pump-scan plot is when the scan of `pumps` gives `outputs`: the scan's error, or
/// series "Forward" and "Backward" holding, for each pump power paired with a scan entry, a
/// point `to_point` makes of the pump power and that side's output; a vertical line
/// "Current pump" at `current_pump`, x axis "Pump power (mW)" spanning `x_range`, y axis
/// "Output power (mW)", nothing else.
pub open spec fn threshold_plot_from<X: Copy, T: Fn(X, Option<X>) -> [X; 2]>(
    pumps: Seq<X>,
    outputs: Result<PumpScan<(X, X)>, SolverError>,
    current_pump: X,
    x_range: (X, X),
    to_point: T,
    plot: Result<Plotter<X>, SolverError>,
) -> bool {
    match outputs {
        Err(error) => plot == Err::<Plotter<X>, SolverError>(error),
        Ok(entries) => plot is Ok && {
            let plot = plot->Ok_0;
            let n = paired_len(pumps.len() as int, entries@.len() as int);
            &&& plot.series_view().len() == 2
            &&& plot.series_view()[0].points_view().len() == n
            &&& plot.series_view()[1].points_view().len() == n
            &&& forall|i: int| 0 <= i < n ==> call_ensures(to_point,
                (pumps[i], side_of(entries@[i], false)), #[trigger] plot.series_view()[0].points_view()[i])
            &&& forall|i: int| 0 <= i < n ==> call_ensures(to_point,
                (pumps[i], side_of(entries@[i], true)), #[trigger] plot.series_view()[1].points_view()[i])
            &&& plot.series_view()[0].label_view() == Some("Forward"@)
            &&& plot.series_view()[1].label_view() == Some("Backward"@)
            &&& plot.horizontal_view().len() == 0
            &&& plot.vertical_view().len() == 1
            &&& plot.vertical_view()[0].value_view() == current_pump
            &&& plot.vertical_view()[0].label_view() == Some("Current pump"@)
            &&& plot.x_label_view() == "Pump power (mW)"@
            &&& plot.y_label_view() == "Output power (mW)"@
            &&& plot.title_view() == Seq::<char>::empty()
            &&& plot.x_limits_view() == Some(x_range)
        },
    }
}

/// `plot` is the pump-scan plot of what `scan` gives for `physics`, `steps` and `pumps`.
pub open spec fn is_threshold_plot<P, X: Copy, S: FnOnce(&P, usize, &[X]) -> Result<PumpScan<(X, X)>, SolverError>, T: Fn(X, Option<X>) -> [X; 2]>(
    physics: P,
    steps: usize,
    pumps: &[X],
    current_pump: X,
    x_range: (X, X),
    scan: S,
    to_point: T,
    plot: Result<Plotter<X>, SolverError>,
) -> bool {
    exists|outputs: Result<PumpScan<(X, X)>, SolverError>| {
        &&& call_ensures(scan, (&physics, steps, pumps), outputs)
        &&& #[trigger] threshold_plot_from(pumps@, outputs, current_pump, x_range, to_point, plot)
    }
}

/// With a scan that always gives the same outputs for the same parameters and pump powers, and
/// a point maker that always gives the same point for the same pump power and output, any two
/// pump-scan plots of the same inputs have the same outcome: the same error, or the same plot.
pub proof fn lemma_threshold_plot_deterministic<P, X: Copy, S: FnOnce(&P, usize, &[X]) -> Result<PumpScan<(X, X)>, SolverError>, T: Fn(X, Option<X>) -> [X; 2]>(
    physics: P,
    steps: usize,
    pumps: &[X],
    current_pump: X,
    x_range: (X, X),
    scan: S,
    to_point: T,
    first: Result<Plotter<X>, SolverError>,
    second: Result<Plotter<X>, SolverError>,
)
    requires
        is_threshold_plot(physics, steps, pumps, current_pump, x_range, scan, to_point, first),
        is_threshold_plot(physics, steps, pumps, current_pump, x_range, scan, to_point, second),
        forall|a: Result<PumpScan<(X, X)>, SolverError>, b: Result<PumpScan<(X, X)>, SolverError>|
            #[trigger] call_ensures(scan, (&physics, steps, pumps), a)
                && #[trigger] call_ensures(scan, (&physics, steps, pumps), b) ==> a == b,
        forall|x: X, y: Option<X>, p: [X; 2], q: [X; 2]|
            #[trigger] call_ensures(to_point, (x, y), p)
                && #[trigger] call_ensures(to_point, (x, y), q) ==> p == q,
    ensures
        crate::plotter::same_outcome(first, second),
{
    let oa = choose|outputs: Result<PumpScan<(X, X)>, SolverError>| {
        &&& call_ensures(scan, (&physics, steps, pumps), outputs)
        &&& #[trigger] threshold_plot_from(pumps@, outputs, current_pump, x_range, to_point, first)
    };
    let ob = choose|outputs: Result<PumpScan<(X, X)>, SolverError>| {
        &&& call_ensures(scan, (&physics, steps, pumps), outputs)
        &&& #[trigger] threshold_plot_from(pumps@, outputs, current_pump, x_range, to_point, second)
    };
    assert(oa == ob);
    if oa is Ok {
        let entries = oa->Ok_0;
        let a = first->Ok_0;
        let b = second->Ok_0;
        let n = paired_len(pumps@.len() as int, entries@.len() as int);
        assert forall|k: int, i: int| 0 <= k < 2 && 0 <= i < n implies
            #[trigger] b.series_view()[k].points_view()[i] == a.series_view()[k].points_view()[i] by {
            let y = side_of(entries@[i], k == 1);
            assert(call_ensures(to_point, (pumps@[i], y), a.series_view()[k].points_view()[i]));
            assert(call_ensures(to_point, (pumps@[i], y), b.series_view()[k].points_view()[i]));
        }
        assert(b.series_view()[0].points_view() =~= a.series_view()[0].points_view());
        assert(b.series_view()[1].points_view() =~= a.series_view()[1].points_view());
    }
}

/// Each pump power is paired with its own scan entry: where the entry is
/// `Some((forward, backward))`, the forward point is what `to_point` makes of the pump power and
/// `Some(forward)`, and the backward point of the pump power and `Some(backward)`; only where
/// the entry is `None` (below threshold) is `to_point` handed `None`.  Every pump power paired
/// with an entry has its point, the first one included, and a failed scan is the plot's error.
pub proof fn lemma_threshold_plot_points_follow_the_scan<P, X: Copy, S: FnOnce(&P, usize, &[X]) -> Result<PumpScan<(X, X)>, SolverError>, T: Fn(X, Option<X>) -> [X; 2]>(
    physics: P,
    steps: usize,
    pumps: &[X],
    current_pump: X,
    x_range: (X, X),
    scan: S,
    to_point: T,
    plot: Result<Plotter<X>, SolverError>,
)
    requires
        is_threshold_plot(physics, steps, pumps, current_pump, x_range, scan, to_point, plot),
    ensures
        exists|outputs: Result<PumpScan<(X, X)>, SolverError>| {
            &&& #[trigger] call_ensures(scan, (&physics, steps, pumps), outputs)
            &&& match outputs {
                Err(error) => plot == Err::<Plotter<X>, SolverError>(error),
                Ok(entries) => plot is Ok && {
                    let forward = plot->Ok_0.series_view()[0].points_view();
                    let backward = plot->Ok_0.series_view()[1].points_view();
                    let n = if pumps@.len() < entries@.len() { pumps@.len() } else { entries@.len() };
                    &&& plot->Ok_0.series_view().len() == 2
                    &&& forward.len() == n
                    &&& backward.len() == n
                    &&& forall|i: int| 0 <= i < n ==> match #[trigger] entries@[i] {
                        Some(output) => {
                            &&& call_ensures(to_point, (pumps@[i], Some(output.0)), forward[i])
                            &&& call_ensures(to_point, (pumps@[i], Some(output.1)), backward[i])
                        },
                        None => {
                            &&& call_ensures(to_point, (pumps@[i], None::<X>), forward[i])
                            &&& call_ensures(to_point, (pumps@[i], None::<X>), backward[i])
                        },
                    }
                },
            }
        },
{
    let outputs = choose|outputs: Result<PumpScan<(X, X)>, SolverError>| {
        &&& call_ensures(scan, (&physics, steps, pumps), outputs)
        &&& #[trigger] threshold_plot_from(pumps@, outputs, current_pump, x_range, to_point, plot)
    };
    if outputs is Ok {
        let entries = outputs->Ok_0;
        let forward = plot->Ok_0.series_view()[0].points_view();
        let backward = plot->Ok_0.series_view()[1].points_view();
        let n = if pumps@.len() < entries@.len() { pumps@.len() } else { entries@.len() };
        assert forall|i: int| 0 <= i < n implies match #[trigger] entries@[i] {
            Some(output) => {
                &&& call_ensures(to_point, (pumps@[i], Some(output.0)), forward[i])
                &&& call_ensures(to_point, (pumps@[i], Some(output.1)), backward[i])
            },
            None => {
                &&& call_ensures(to_point, (pumps@[i], None::<X>), forward[i])
                &&& call_ensures(to_point, (pumps@[i], None::<X>), backward[i])
            },
        } by {
            assert(call_ensures(to_point, (pumps@[i], side_of(entries@[i], false)), forward[i]));
            assert(call_ensures(to_point, (pumps@[i], side_of(entries@[i], true)), backward[i]));
        }
    }
    assert(call_ensures(scan, (&physics, steps, pumps), outputs));
}

impl<P> LaserParameters<P> {
    /// The pump-scan plot.  `scan` is handed the physical parameters, the step count and the pump
    /// powers `pumps` (in W), and scans the laser's (forward, backward) output powers; an error of
    /// the scan is the plot's error.  Otherwise series "Forward" and "Backward" hold, for each pump
    /// power paired with a scan entry, the point `to_point` makes of the pump power and that side's
    /// output (nothing below threshold); a vertical line "Current pump" marks `current_pump`, the
    /// x axis "Pump power (mW)" spans `x_range`, and the y axis is "Output power (mW)".
    #[verifier::loop_isolation(false)]
    pub fn threshold_plot<X: Copy, S, T>(
        &mut self,
        pumps: &[X],
        current_pump: X,
        x_range: (X, X),
        scan: S,
        to_point: T,
    ) -> (plot: Result<Plotter<X>, SolverError>)
        where S: FnOnce(&P, usize, &[X]) -> Result<PumpScan<(X, X)>, SolverError>, T: Fn(X, Option<X>) -> [X; 2],
        requires
            call_requires(scan, (&old(self).physics, old(self).steps, pumps)),
            forall|x: X, y: Option<X>| call_requires(to_point, (x, y)),
        ensures
            *final(self) == *old(self),
            is_threshold_plot(old(self).physics, old(self).steps, pumps, current_pump, x_range, scan, to_point, plot),
    {
        let outputs = scan(&self.physics, self.steps, pumps);
        let ghost outcome = outputs;
        let entries = match outputs {
            Ok(entries) => entries,
            Err(error) => {
                assert(threshold_plot_from(pumps@, outcome, current_pump, x_range, to_point,
                    Err::<Plotter<X>, SolverError>(error)));
                return Err(error);
            },
        };
        let n = if pumps.len() < entries.len() { pumps.len() } else { entries.len() };
        let mut forward_points: Points<X> = Vec::new();
        let mut backward_points: Points<X> = Vec::new();
        let mut i: usize = 0;
        while i < n
            invariant
                n == paired_len(pumps@.len() as int, entries@.len() as int),
                0 <= i <= n,
                forward_points@.len() == i,
                backward_points@.len() == i,
                forall|j: int| 0 <= j < i ==> call_ensures(to_point,
                    (pumps@[j], side_of(entries@[j], false)), #[trigger] forward_points@[j]),
                forall|j: int| 0 <= j < i ==> call_ensures(to_point,
                    (pumps@[j], side_of(entries@[j], true)), #[trigger] backward_points@[j]),
            decreases n - i,
        {
            let (forward, backward) = match entries[i] {
                Some((forward, backward)) => (Some(forward), Some(backward)),
                None => (None, None),
            };
            forward_points.push(to_point(pumps[i], forward));
            backward_points.push(to_point(pumps[i], backward));
            i += 1;
        }
        let mut plot = Plotter::new();
        plot.xlabel("Pump power (mW)");
        plot.ylabel("Output power (mW)");
        let line: &mut PlotLine<X> = plot.add_points(forward_points);
        line.label("Forward");
        let line: &mut PlotLine<X> = plot.add_points(backward_points);
        line.label("Backward");
        let marker: &mut ReferenceLine<X> = plot.axvline(current_pump);
        marker.label("Current pump");
        plot.xlim(x_range.0, x_range.1);
        proof {
            reveal_strlit("Forward");
            reveal_strlit("Backward");
            reveal_strlit("Current pump");
            reveal_strlit("Pump power (mW)");
            reveal_strlit("Output power (mW)");
            assert(threshold_plot_from(pumps@, outcome, current_pump, x_range, to_point,
                Ok::<Plotter<X>, SolverError>(plot)));
        }
        Ok(plot)
    }
}

} // verus!
