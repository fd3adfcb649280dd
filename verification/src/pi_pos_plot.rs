//! The plot of the laser's output powers against the position of the grating's phase shift.

use vstd::prelude::*;

use crate::dfb::LaserParameters;
use crate::error::SolverError;
use crate::plotter::{PlotLine, Plotter, Points, ReferenceLine};
use crate::timing::{add_durations, duration_from_secs};
use std::time::Duration;

verus! {

/// For each of the first `n` solves whose result is `Ok((forward, backward))`, in order, the
/// point `[positions[i], forward]` (when `backward_side` is false) or
/// `[positions[i], backward]` (when it is true); failed solves leave no point.
pub open spec fn output_points<X>(
    positions: Seq<X>,
    results: Seq<Result<(X, X), SolverError>>,
    backward_side: bool,
    n: int,
) -> Seq<[X; 2]>
    decreases n,
{
    if n <= 0 {
        Seq::empty()
    } else {
        let before = output_points(positions, results, backward_side, n - 1);
        match results[n - 1] {
            Ok((forward, backward)) => before.push([positions[n - 1], if backward_side { backward } else { forward }]),
            Err(_) => before,
        }
    }
}

/// The points of the first `n` solves depend on those solves alone.
pub proof fn lemma_output_points_prefix<X>(
    positions: Seq<X>,
    a: Seq<Result<(X, X), SolverError>>,
    b: Seq<Result<(X, X), SolverError>>,
    backward_side: bool,
    n: int,
)
    requires
        0 <= n <= a.len(),
        n <= b.len(),
        forall|j: int| 0 <= j < n ==> a[j] == b[j],
    ensures
        output_points(positions, a, backward_side, n) == output_points(positions, b, backward_side, n),
    decreases n,
{
    if n > 0 {
        lemma_output_points_prefix(positions, a, b, backward_side, n - 1);
    }
}

/// `plot` is the output-power plot made from the solves `results`, one per position: series
/// "Forward" and "Backward" holding the successful ones in order, a vertical line
/// "Current position" at `current_position`, x axis "Pi shift position" over `x_range`, y axis
/// "Output power", nothing else.
pub open spec fn output_plot_from<X: Copy>(
    positions: Seq<X>,
    results: Seq<Result<(X, X), SolverError>>,
    current_position: X,
    x_range: (X, X),
    plot: Plotter<X>,
) -> bool {
    &&& results.len() == positions.len()
    &&& plot.series_view().len() == 2
    &&& plot.series_view()[0].points_view() == output_points(positions, results, false, results.len() as int)
    &&& plot.series_view()[1].points_view() == output_points(positions, results, true, results.len() as int)
    &&& plot.series_view()[0].label_view() == Some("Forward"@)
    &&& plot.series_view()[1].label_view() == Some("Backward"@)
    &&& plot.horizontal_view().len() == 0
    &&& plot.vertical_view().len() == 1
    &&& plot.vertical_view()[0].value_view() == current_position
    &&& plot.vertical_view()[0].label_view() == Some("Current position"@)
    &&& plot.x_label_view() == "Pi shift position"@
    &&& plot.y_label_view() == "Output power"@
    &&& plot.title_view() == Seq::<char>::empty()
    &&& plot.x_limits_view() == Some(x_range)
}

/// `plot` is the output-power plot of `positions`, where each solve is what `output_powers`
/// gives for `physics`, `steps` and that position, and `compute_time` is the time those solves
/// took, added up in order.
pub open spec fn is_pi_pos_plot<P, X: Copy, F: FnMut(&P, usize, X) -> (Result<(X, X), SolverError>, Duration)>(
    physics: P,
    steps: usize,
    positions: Seq<X>,
    current_position: X,
    x_range: (X, X),
    output_powers: F,
    plot: Plotter<X>,
    compute_time: Duration,
) -> bool {
    exists|results: Seq<Result<(X, X), SolverError>>, times: Seq<Duration>|
        #![trigger output_plot_from(positions, results, current_position, x_range, plot), crate::timing::total_time(times)]
    {
        &&& times.len() == results.len()
        &&& forall|i: int| #![trigger results[i]] 0 <= i < results.len() ==>
            call_ensures(output_powers, (&physics, steps, positions[i]), (results[i], times[i]))
        &&& output_plot_from(positions, results, current_position, x_range, plot)
        &&& compute_time == crate::timing::total_time(times)
    }
}

/// With a solver closure that always gives the same result for the same parameters and
/// position (however long it takes), any two output-power plots of the same parameters and
/// positions are the same plot.
pub proof fn lemma_pi_pos_plot_deterministic<P, X: Copy, F: FnMut(&P, usize, X) -> (Result<(X, X), SolverError>, Duration)>(
    physics: P,
    steps: usize,
    positions: Seq<X>,
    current_position: X,
    x_range: (X, X),
    output_powers: F,
    first: Plotter<X>,
    first_time: Duration,
    second: Plotter<X>,
    second_time: Duration,
)
    requires
        is_pi_pos_plot(physics, steps, positions, current_position, x_range, output_powers, first, first_time),
        is_pi_pos_plot(physics, steps, positions, current_position, x_range, output_powers, second, second_time),
        forall|x: X, a: (Result<(X, X), SolverError>, Duration), b: (Result<(X, X), SolverError>, Duration)|
            #[trigger] call_ensures(output_powers, (&physics, steps, x), a)
                && #[trigger] call_ensures(output_powers, (&physics, steps, x), b) ==> a.0 == b.0,
    ensures
        first.same_plot(&second),
{
    let (ra, ta) = choose|results: Seq<Result<(X, X), SolverError>>, times: Seq<Duration>|
        #![trigger output_plot_from(positions, results, current_position, x_range, first), crate::timing::total_time(times)]
    {
        &&& times.len() == results.len()
        &&& forall|i: int| #![trigger results[i]] 0 <= i < results.len() ==>
            call_ensures(output_powers, (&physics, steps, positions[i]), (results[i], times[i]))
        &&& output_plot_from(positions, results, current_position, x_range, first)
        &&& first_time == crate::timing::total_time(times)
    };
    let (rb, tb) = choose|results: Seq<Result<(X, X), SolverError>>, times: Seq<Duration>|
        #![trigger output_plot_from(positions, results, current_position, x_range, second), crate::timing::total_time(times)]
    {
        &&& times.len() == results.len()
        &&& forall|i: int| #![trigger results[i]] 0 <= i < results.len() ==>
            call_ensures(output_powers, (&physics, steps, positions[i]), (results[i], times[i]))
        &&& output_plot_from(positions, results, current_position, x_range, second)
        &&& second_time == crate::timing::total_time(times)
    };
    assert forall|i: int| 0 <= i < ra.len() implies ra[i] == rb[i] by {
        assert(call_ensures(output_powers, (&physics, steps, positions[i]), (ra[i], ta[i])));
        assert(call_ensures(output_powers, (&physics, steps, positions[i]), (rb[i], tb[i])));
    }
    assert(ra =~= rb);
}

/// The points the first `n` solves leave on one side are those that keeping each
/// `(position, solve)` pair with `Ok((forward, backward))` as `[position, forward]` (or
/// `[position, backward]` on the backward side), in order, gives.
proof fn lemma_output_points_are_the_successes<X>(
    positions: Seq<X>,
    results: Seq<Result<(X, X), SolverError>>,
    backward_side: bool,
    n: int,
)
    requires
        0 <= n <= results.len(),
        n <= positions.len(),
    ensures
        !backward_side ==> output_points(positions, results, backward_side, n)
            == Seq::new(n as nat, |i: int| (positions[i], results[i]))
                .filter_map(|pair: (X, Result<(X, X), SolverError>)| match pair.1 {
                    Ok(powers) => Some([pair.0, powers.0]),
                    Err(_) => None::<[X; 2]>,
                }),
        backward_side ==> output_points(positions, results, backward_side, n)
            == Seq::new(n as nat, |i: int| (positions[i], results[i]))
                .filter_map(|pair: (X, Result<(X, X), SolverError>)| match pair.1 {
                    Ok(powers) => Some([pair.0, powers.1]),
                    Err(_) => None::<[X; 2]>,
                }),
    decreases n,
{
    if n > 0 {
        lemma_output_points_are_the_successes(positions, results, backward_side, n - 1);
        let pairs = Seq::new(n as nat, |i: int| (positions[i], results[i]));
        assert(pairs.drop_last() =~= Seq::new((n - 1) as nat, |i: int| (positions[i], results[i])));
        let before = output_points(positions, results, backward_side, n - 1);
        match results[n - 1] {
            Ok(powers) => {
                let point = [positions[n - 1], if backward_side { powers.1 } else { powers.0 }];
                assert(before.push(point) =~= before + seq![point]);
            },
            Err(_) => {},
        }
    }
}

/// The "Forward" series holds `[position, forward]` and the "Backward" series
/// `[position, backward]` for exactly the positions whose solve gave
/// `Ok((forward, backward))`, in the order of the positions: a failed solve, whatever its
/// error, drops its own position and no other.
pub proof fn lemma_pi_pos_plot_keeps_every_success<P, X: Copy, F: FnMut(&P, usize, X) -> (Result<(X, X), SolverError>, Duration)>(
    physics: P,
    steps: usize,
    positions: Seq<X>,
    current_position: X,
    x_range: (X, X),
    output_powers: F,
    plot: Plotter<X>,
    compute_time: Duration,
)
    requires
        is_pi_pos_plot(physics, steps, positions, current_position, x_range, output_powers, plot, compute_time),
    ensures
        plot.series_view().len() == 2,
        exists|results: Seq<Result<(X, X), SolverError>>, times: Seq<Duration>|
            #![trigger results.len(), times.len()]
        {
            &&& results.len() == positions.len()
            &&& times.len() == positions.len()
            &&& forall|i: int| #![trigger results[i]] 0 <= i < results.len() ==>
                call_ensures(output_powers, (&physics, steps, positions[i]), (results[i], times[i]))
            &&& plot.series_view()[0].points_view()
                == Seq::new(positions.len(), |i: int| (positions[i], results[i]))
                    .filter_map(|pair: (X, Result<(X, X), SolverError>)| match pair.1 {
                        Ok(powers) => Some([pair.0, powers.0]),
                        Err(_) => None::<[X; 2]>,
                    })
            &&& plot.series_view()[1].points_view()
                == Seq::new(positions.len(), |i: int| (positions[i], results[i]))
                    .filter_map(|pair: (X, Result<(X, X), SolverError>)| match pair.1 {
                        Ok(powers) => Some([pair.0, powers.1]),
                        Err(_) => None::<[X; 2]>,
                    })
        },
{
    let (results, times) = choose|results: Seq<Result<(X, X), SolverError>>, times: Seq<Duration>|
        #![trigger output_plot_from(positions, results, current_position, x_range, plot), crate::timing::total_time(times)]
    {
        &&& times.len() == results.len()
        &&& forall|i: int| #![trigger results[i]] 0 <= i < results.len() ==>
            call_ensures(output_powers, (&physics, steps, positions[i]), (results[i], times[i]))
        &&& output_plot_from(positions, results, current_position, x_range, plot)
        &&& compute_time == crate::timing::total_time(times)
    };
    let n = results.len() as int;
    lemma_output_points_are_the_successes(positions, results, false, n);
    lemma_output_points_are_the_successes(positions, results, true, n);
    assert(results.len() == positions.len() && times.len() == positions.len());
}

impl<P> LaserParameters<P> {
    /// The output-power plot.  `output_powers` is handed the physical parameters, the step count
    /// and each of `pi_positions` in turn, and solves for the (forward, backward) output powers
    /// with the grating's phase shift at that position, giving also the time the solve took;
    /// series "Forward" and "Backward" hold the positions whose solve succeeded, a vertical line
    /// "Current position" marks `current_position`, the x axis "Pi shift position" spans
    /// `x_range`, and the y axis is "Output power".  The solve times, added up, become the
    /// parameters' compute time; nothing else of them changes.
    #[verifier::loop_isolation(false)]
    pub fn pi_pos_plot<X: Copy, F>(
        &mut self,
        pi_positions: &[X],
        current_position: X,
        x_range: (X, X),
        mut output_powers: F,
    ) -> (plot: Plotter<X>)
        where F: FnMut(&P, usize, X) -> (Result<(X, X), SolverError>, Duration),
        requires
            forall|x: X| call_requires(output_powers, (&old(self).physics, old(self).steps, x)),
        ensures
            final(self).physics == old(self).physics,
            final(self).steps == old(self).steps,
            final(self).compute_time is Some,
            is_pi_pos_plot(old(self).physics, old(self).steps, pi_positions@, current_position, x_range,
                output_powers, plot, final(self).compute_time->Some_0),
    {
        let ghost f0 = output_powers;
        let ghost mut results: Seq<Result<(X, X), SolverError>> = Seq::empty();
        let ghost mut times: Seq<Duration> = Seq::empty();
        let n = pi_positions.len();
        let mut forward_output: Points<X> = Vec::new();
        let mut backward_output: Points<X> = Vec::new();
        let mut compute_time = duration_from_secs(0);
        let mut i: usize = 0;
        while i < n
            invariant
                output_powers == f0,
                *self == *old(self),
                n == pi_positions@.len(),
                0 <= i <= n,
                results.len() == i,
                times.len() == i,
                forall|j: int| #![trigger results[j]] 0 <= j < i ==>
                    call_ensures(f0, (&self.physics, self.steps, pi_positions@[j]), (results[j], times[j])),
                forward_output@ == output_points(pi_positions@, results, false, i as int),
                backward_output@ == output_points(pi_positions@, results, true, i as int),
                compute_time == crate::timing::total_time(times),
            decreases n - i,
        {
        let pi_position = pi_positions[i];
            let (outputs, elapsed) = output_powers(&self.physics, self.steps, pi_position);
            let ghost prev = results;
            let ghost prev_times = times;
            compute_time = add_durations(compute_time, elapsed);
            proof {
                results = results.push(outputs);
                times = times.push(elapsed);
                assert(times.drop_last() == prev_times);
                lemma_output_points_prefix(pi_positions@, prev, results, false, i as int);
                lemma_output_points_prefix(pi_positions@, prev, results, true, i as int);
            }
            if let Ok((forward, backward)) = outputs {
                forward_output.push([pi_position, forward]);
                backward_output.push([pi_position, backward]);
            }
            i += 1;
        }
        let mut plot = Plotter::new();
        let line: &mut PlotLine<X> = plot.add_points(forward_output);
        line.label("Forward");
        let line: &mut PlotLine<X> = plot.add_points(backward_output);
        line.label("Backward");
        let marker: &mut ReferenceLine<X> = plot.axvline(current_position);
        marker.label("Current position");
        plot.xlabel("Pi shift position");
        plot.ylabel("Output power");
        plot.xlim(x_range.0, x_range.1);
        proof {
            reveal_strlit("Forward");
            reveal_strlit("Backward");
            reveal_strlit("Current position");
            reveal_strlit("Pi shift position");
            reveal_strlit("Output power");
            assert(output_plot_from(pi_positions@, results, current_position, x_range, plot));
        }
        self.compute_time = Some(compute_time);
        plot
    }
}

} // verus!
