//! The plot of the lasing threshold against the position of the grating's phase shift.

use vstd::prelude::*;

use crate::dfb::LaserParameters;
use crate::error::SolverError;
use crate::plotter::{PlotLine, Plotter, Points, ReferenceLine};

verus! {

/// The points `[positions[i], t]` for each of the first `n` solves whose result is `Ok(t)`, in
/// order; failed solves leave no point.
pub open spec fn successful_points<X>(positions: Seq<X>, results: Seq<Result<X, SolverError>>, n: int) -> Seq<[X; 2]>
    decreases n,
{
    if n <= 0 {
        Seq::empty()
    } else {
        let before = successful_points(positions, results, n - 1);
        match results[n - 1] {
            Ok(value) => before.push([positions[n - 1], value]),
            Err(_) => before,
        }
    }
}

/// `plot` is the threshold plot made from the solves `results`, one per position: one series
/// "Threshold" holding the successful ones in order, a vertical line "Current position" at
/// `current_position`, x axis "Pi shift position" over `x_range`, y axis
/// "Threshold pump power (mW)", nothing else.
pub open spec fn threshold_points_from<X: Copy>(
    positions: Seq<X>,
    results: Seq<Result<X, SolverError>>,
    current_position: X,
    x_range: (X, X),
    plot: Plotter<X>,
) -> bool {
    &&& results.len() == positions.len()
    &&& plot.series_view().len() == 1
    &&& plot.series_view()[0].points_view() == successful_points(positions, results, results.len() as int)
    &&& plot.series_view()[0].label_view() == Some("Threshold"@)
    &&& plot.horizontal_view().len() == 0
    &&& plot.vertical_view().len() == 1
    &&& plot.vertical_view()[0].value_view() == current_position
    &&& plot.vertical_view()[0].label_view() == Some("Current position"@)
    &&& plot.x_label_view() == "Pi shift position"@
    &&& plot.y_label_view() == "Threshold pump power (mW)"@
    &&& plot.title_view() == Seq::<char>::empty()
    &&& plot.x_limits_view() == Some(x_range)
}

/// `plot` is the threshold plot of `positions`, where each solve is what `threshold_mw` gives
/// for `physics`, `steps` and that position.
pub open spec fn is_pi_pos_threshold_plot<P, X: Copy, F: FnMut(&P, usize, X) -> Result<X, SolverError>>(
    physics: P,
    steps: usize,
    positions: Seq<X>,
    current_position: X,
    x_range: (X, X),
    threshold_mw: F,
    plot: Plotter<X>,
) -> bool {
    exists|results: Seq<Result<X, SolverError>>| {
        &&& forall|i: int| 0 <= i < results.len() ==>
            call_ensures(threshold_mw, (&physics, steps, positions[i]), #[trigger] results[i])
        &&& #[trigger] threshold_points_from(positions, results, current_position, x_range, plot)
    }
}

/// With a solver closure that always gives the same result for the same parameters and
/// position, any two threshold plots of the same parameters and positions are the same plot.
pub proof fn lemma_pi_pos_threshold_plot_deterministic<P, X: Copy, F: FnMut(&P, usize, X) -> Result<X, SolverError>>(
    physics: P,
    steps: usize,
    positions: Seq<X>,
    current_position: X,
    x_range: (X, X),
    threshold_mw: F,
    first: Plotter<X>,
    second: Plotter<X>,
)
    requires
        is_pi_pos_threshold_plot(physics, steps, positions, current_position, x_range, threshold_mw, first),
        is_pi_pos_threshold_plot(physics, steps, positions, current_position, x_range, threshold_mw, second),
        forall|x: X, a: Result<X, SolverError>, b: Result<X, SolverError>|
            #[trigger] call_ensures(threshold_mw, (&physics, steps, x), a)
                && #[trigger] call_ensures(threshold_mw, (&physics, steps, x), b) ==> a == b,
    ensures
        first.same_plot(&second),
{
    let ra = choose|results: Seq<Result<X, SolverError>>| {
        &&& forall|i: int| 0 <= i < results.len() ==>
            call_ensures(threshold_mw, (&physics, steps, positions[i]), #[trigger] results[i])
        &&& #[trigger] threshold_points_from(positions, results, current_position, x_range, first)
    };
    let rb = choose|results: Seq<Result<X, SolverError>>| {
        &&& forall|i: int| 0 <= i < results.len() ==>
            call_ensures(threshold_mw, (&physics, steps, positions[i]), #[trigger] results[i])
        &&& #[trigger] threshold_points_from(positions, results, current_position, x_range, second)
    };
    assert forall|i: int| 0 <= i < ra.len() implies ra[i] == rb[i] by {
        assert(call_ensures(threshold_mw, (&physics, steps, positions[i]), ra[i]));
        assert(call_ensures(threshold_mw, (&physics, steps, positions[i]), rb[i]));
    }
    assert(ra =~= rb);
}

/// The points the successful solves among the first `n` leave are those that keeping each
/// `(position, solve)` pair with `Ok(t)` as `[position, t]`, in order, gives.
proof fn lemma_successful_points_are_the_successes<X>(
    positions: Seq<X>,
    results: Seq<Result<X, SolverError>>,
    n: int,
)
    requires
        0 <= n <= results.len(),
        n <= positions.len(),
    ensures
        successful_points(positions, results, n) == Seq::new(n as nat, |i: int| (positions[i], results[i]))
            .filter_map(|pair: (X, Result<X, SolverError>)| match pair.1 {
                Ok(t) => Some([pair.0, t]),
                Err(_) => None::<[X; 2]>,
            }),
    decreases n,
{
    if n > 0 {
        lemma_successful_points_are_the_successes(positions, results, n - 1);
        let pairs = Seq::new(n as nat, |i: int| (positions[i], results[i]));
        assert(pairs.drop_last() =~= Seq::new((n - 1) as nat, |i: int| (positions[i], results[i])));
        let before = successful_points(positions, results, n - 1);
        match results[n - 1] {
            Ok(t) => assert(before.push([positions[n - 1], t]) =~= before + seq![[positions[n - 1], t]]),
            Err(_) => {},
        }
    }
}

/// The threshold series holds `[position, threshold]` for exactly the positions whose solve
/// succeeded, in the order of the positions: a failed solve, whatever its error, drops its own
/// position and no other.
pub proof fn lemma_pi_pos_threshold_plot_keeps_every_success<P, X: Copy, F: FnMut(&P, usize, X) -> Result<X, SolverError>>(
    physics: P,
    steps: usize,
    positions: Seq<X>,
    current_position: X,
    x_range: (X, X),
    threshold_mw: F,
    plot: Plotter<X>,
)
    requires
        is_pi_pos_threshold_plot(physics, steps, positions, current_position, x_range, threshold_mw, plot),
    ensures
        plot.series_view().len() == 1,
        exists|results: Seq<Result<X, SolverError>>| {
            &&& results.len() == positions.len()
            &&& forall|i: int| 0 <= i < results.len() ==>
                call_ensures(threshold_mw, (&physics, steps, positions[i]), #[trigger] results[i])
            &&& #[trigger] plot.series_view()[0].points_view()
                == Seq::new(positions.len(), |i: int| (positions[i], results[i]))
                    .filter_map(|pair: (X, Result<X, SolverError>)| match pair.1 {
                        Ok(t) => Some([pair.0, t]),
                        Err(_) => None::<[X; 2]>,
                    })
        },
{
    let results = choose|results: Seq<Result<X, SolverError>>| {
        &&& forall|i: int| 0 <= i < results.len() ==>
            call_ensures(threshold_mw, (&physics, steps, positions[i]), #[trigger] results[i])
        &&& #[trigger] threshold_points_from(positions, results, current_position, x_range, plot)
    };
    lemma_successful_points_are_the_successes(positions, results, results.len() as int);
}

impl<P> LaserParameters<P> {
    /// The threshold plot.  `threshold_mw` is handed the physical parameters, the step count and
    /// each of `pi_positions` in turn, and solves for the threshold pump power (in mW) with the
    /// grating's phase shift at that position; one series "Threshold" holds the positions whose
    /// solve succeeded, a vertical line "Current position" marks `current_position`, the x axis
    /// "Pi shift position" spans `x_range`, and the y axis is "Threshold pump power (mW)".
    #[verifier::loop_isolation(false)]
    pub fn pi_pos_threshold_plot<X: Copy, F>(
        &mut self,
        pi_positions: &[X],
        current_position: X,
        x_range: (X, X),
        mut threshold_mw: F,
    ) -> (plot: Plotter<X>)
        where F: FnMut(&P, usize, X) -> Result<X, SolverError>,
        requires
            forall|x: X| call_requires(threshold_mw, (&old(self).physics, old(self).steps, x)),
        ensures
            *final(self) == *old(self),
            is_pi_pos_threshold_plot(old(self).physics, old(self).steps, pi_positions@, current_position, x_range, threshold_mw, plot),
    {
        let ghost f0 = threshold_mw;
        let ghost mut results: Seq<Result<X, SolverError>> = Seq::empty();
        let n = pi_positions.len();
        let mut thresholds: Points<X> = Vec::new();
        let mut i: usize = 0;
        while i < n
            invariant
                threshold_mw == f0,
                *self == *old(self),
                n == pi_positions@.len(),
                0 <= i <= n,
                results.len() == i,
                forall|j: int| 0 <= j < i ==> call_ensures(f0, (&self.physics, self.steps, pi_positions@[j]), #[trigger] results[j]),
                thresholds@ == successful_points(pi_positions@, results, i as int),
            decreases n - i,
        {
            let pi_position = pi_positions[i];
            let threshold = threshold_mw(&self.physics, self.steps, pi_position);
            let ghost prev = results;
            proof {
                results = results.push(threshold);
                lemma_successful_points_prefix(pi_positions@, prev, results, i as int);
            }
            if let Ok(value) = threshold {
                thresholds.push([pi_position, value]);
            }
            i += 1;
        }
        let mut plot = Plotter::new();
        let line: &mut PlotLine<X> = plot.add_points(thresholds);
        line.label("Threshold");
        let marker: &mut ReferenceLine<X> = plot.axvline(current_position);
        marker.label("Current position");
        plot.xlabel("Pi shift position");
        plot.ylabel("Threshold pump power (mW)");
        plot.xlim(x_range.0, x_range.1);
        proof {
            reveal_strlit("Threshold");
            reveal_strlit("Current position");
            reveal_strlit("Pi shift position");
            reveal_strlit("Threshold pump power (mW)");
            assert(threshold_points_from(pi_positions@, results, current_position, x_range, plot));
        }
        plot
    }
}

/// The points of the first `n` solves depend on those solves alone.
pub proof fn lemma_successful_points_prefix<X>(
    positions: Seq<X>,
    a: Seq<Result<X, SolverError>>,
    b: Seq<Result<X, SolverError>>,
    n: int,
)
    requires
        0 <= n <= a.len(),
        n <= b.len(),
        forall|j: int| 0 <= j < n ==> a[j] == b[j],
    ensures
        successful_points(positions, a, n) == successful_points(positions, b, n),
    decreases n,
{
    if n > 0 {
        lemma_successful_points_prefix(positions, a, b, n - 1);
    }
}

} // verus!
