//! The plot of the signal and pump powers along the fibre.

use vstd::prelude::*;

use crate::dfb::LaserParameters;
use crate::error::SolverError;
use crate::kappa_plot::paired_len;
use crate::plotter::{PlotLine, Plotter, Points};
use std::time::Duration;

verus! {

/// The points pairing each of the first `n` positions with component `k` of the powers there.
pub open spec fn power_points<X>(z: Seq<X>, powers: Seq<[X; 4]>, k: int, n: int) -> Seq<[X; 2]> {
    Seq::new(n as nat, |i: int| [z[i], powers[i][k]])
}

/// The four series of a power profile, in order, with the given labels.
pub open spec fn profile_series_labels() -> Seq<Seq<char>> {
    seq!["Forward signal"@, "Backward signal"@, "Forward pump"@, "Backward pump"@]
}

/// Builds the profile plot from grid positions and, at each point, the forward-signal,
/// backward-signal, forward-pump and backward-pump powers (in mW): one labelled series per
/// power, each pairing the positions with that power as far as both reach; x axis
/// "Position (m)", y axis "Power (mW)".
#[verifier::spinoff_prover]
pub fn field_profile_plot<X: Copy>(z: &[X], powers: &[[X; 4]]) -> (plot: Plotter<X>)
    ensures
        plot.series_view().len() == 4,
        forall|k: int| 0 <= k < 4 ==> {
            &&& #[trigger] plot.series_view()[k].points_view()
                == power_points(z@, powers@, k, paired_len(z@.len() as int, powers@.len() as int))
            &&& plot.series_view()[k].label_view() == Some(profile_series_labels()[k])
        },
        plot.series_view()[0].label_view() == Some("Forward signal"@),
        plot.series_view()[0].points_view() == Seq::new((if z@.len() < powers@.len() { z@.len() } else { powers@.len() }), |i: int| [z@[i], powers@[i][0]]),
        plot.series_view()[1].label_view() == Some("Backward signal"@),
        plot.series_view()[1].points_view() == Seq::new((if z@.len() < powers@.len() { z@.len() } else { powers@.len() }), |i: int| [z@[i], powers@[i][1]]),
        plot.series_view()[2].label_view() == Some("Forward pump"@),
        plot.series_view()[2].points_view() == Seq::new((if z@.len() < powers@.len() { z@.len() } else { powers@.len() }), |i: int| [z@[i], powers@[i][2]]),
        plot.series_view()[3].label_view() == Some("Backward pump"@),
        plot.series_view()[3].points_view() == Seq::new((if z@.len() < powers@.len() { z@.len() } else { powers@.len() }), |i: int| [z@[i], powers@[i][3]]),
        plot.horizontal_view().len() == 0,
        plot.vertical_view().len() == 0,
        plot.x_label_view() == "Position (m)"@,
        plot.y_label_view() == "Power (mW)"@,
        plot.title_view() == Seq::<char>::empty(),
        plot.x_limits_view() is None,
{
    let n = if z.len() < powers.len() { z.len() } else { powers.len() };
    let ghost m = paired_len(z@.len() as int, powers@.len() as int);
    let mut plot = Plotter::new();
    let labels = ["Forward signal", "Backward signal", "Forward pump", "Backward pump"];
    proof {
        reveal_strlit("Forward signal");
        reveal_strlit("Backward signal");
        reveal_strlit("Forward pump");
        reveal_strlit("Backward pump");
        assert(labels@.map_values(|l: &str| l@) =~= profile_series_labels());
    }
    let mut k: usize = 0;
    while k < 4
        invariant
            n == m,
            m == paired_len(z@.len() as int, powers@.len() as int),
            0 <= k <= 4,
            labels@.map_values(|l: &str| l@) == profile_series_labels(),
            plot.series_view().len() == k,
            forall|c: int| 0 <= c < k ==> {
                &&& #[trigger] plot.series_view()[c].points_view() == power_points(z@, powers@, c, m)
                &&& plot.series_view()[c].label_view() == Some(profile_series_labels()[c])
            },
            plot.horizontal_view().len() == 0,
            plot.vertical_view().len() == 0,
            plot.x_label_view() == Seq::<char>::empty(),
            plot.y_label_view() == Seq::<char>::empty(),
            plot.title_view() == Seq::<char>::empty(),
            plot.x_limits_view() is None,
        decreases 4 - k,
    {
        let mut points: Points<X> = Vec::new();
        let mut i: usize = 0;
        while i < n
            invariant
                n == m,
                0 <= k < 4,
                0 <= i <= n,
                m <= z@.len(),
                m <= powers@.len(),
                points@.len() == i,
                forall|j: int| 0 <= j < i ==> #[trigger] points@[j] == [z@[j], powers@[j][k as int]],
            decreases n - i,
        {
            points.push([z[i], powers[i][k]]);
            i += 1;
        }
        assert(points@ =~= power_points(z@, powers@, k as int, m));
        let line: &mut PlotLine<X> = plot.add_points(points);
        line.label(labels[k]);
        assert(labels@.map_values(|l: &str| l@)[k as int] == labels@[k as int]@);
        k += 1;
    }
    let ghost series = plot.series_view();
    plot.xlabel("Position (m)");
    plot.ylabel("Power (mW)");
    proof {
        reveal_strlit("Position (m)");
        reveal_strlit("Power (mW)");
        assert(plot.series_view() == series);
        assert forall|c: int| 0 <= c < 4 implies {
            &&& #[trigger] plot.series_view()[c].points_view() == power_points(z@, powers@, c, m)
            &&& plot.series_view()[c].label_view() == Some(profile_series_labels()[c])
        } by {
            assert(series[c].points_view() == power_points(z@, powers@, c, m));
        }
        assert(plot.series_view()[0].points_view() =~= Seq::new(m as nat, |i: int| [z@[i], powers@[i][0]]));
        assert(plot.series_view()[1].points_view() =~= Seq::new(m as nat, |i: int| [z@[i], powers@[i][1]]));
        assert(plot.series_view()[2].points_view() =~= Seq::new(m as nat, |i: int| [z@[i], powers@[i][2]]));
        assert(plot.series_view()[3].points_view() =~= Seq::new(m as nat, |i: int| [z@[i], powers@[i][3]]));
    }
    plot
}

/// What the profile plot is when the solve gives `solved`: its error, or the four labelled power series pairing each position with that power, x axis "Position (m)", y axis "Power (mW)", nothing else.
pub open spec fn profile_plot_from<X: Copy>(solved: Result<(Vec<X>, Vec<[X; 4]>), SolverError>, plot: Result<Plotter<X>, SolverError>) -> bool {
    match solved {
        Err(error) => plot == Err::<Plotter<X>, SolverError>(error),
        Ok((z, powers)) => plot is Ok && {
            let plot = plot->Ok_0;
            let n = paired_len(z@.len() as int, powers@.len() as int);
            &&& plot.series_view().len() == 4
            &&& forall|k: int| 0 <= k < 4 ==> {
                &&& #[trigger] plot.series_view()[k].points_view() == power_points(z@, powers@, k, n)
                &&& plot.series_view()[k].label_view() == Some(profile_series_labels()[k])
            }
            &&& plot.horizontal_view().len() == 0
            &&& plot.vertical_view().len() == 0
            &&& plot.x_label_view() == "Position (m)"@
            &&& plot.y_label_view() == "Power (mW)"@
            &&& plot.title_view() == Seq::<char>::empty()
            &&& plot.x_limits_view() is None
        },
    }
}

/// `plot` is the profile plot of what `solve` gives for `physics` and `steps`, and
/// `compute_time` the time the solve took.
pub open spec fn is_profile_plot<P, X: Copy, S: FnOnce(&P, usize) -> (Result<(Vec<X>, Vec<[X; 4]>), SolverError>, Duration)>(
    physics: P,
    steps: usize,
    solve: S,
    plot: Result<Plotter<X>, SolverError>,
    compute_time: Duration,
) -> bool {
    exists|solved: Result<(Vec<X>, Vec<[X; 4]>), SolverError>| {
        &&& call_ensures(solve, (&physics, steps), (solved, compute_time))
        &&& #[trigger] profile_plot_from(solved, plot)
    }
}

/// With a solver closure that always gives the same result for the same parameters (however
/// long it takes), any two profile plots of the same parameters have the same outcome: the same
/// error, or the same plot.
pub proof fn lemma_profile_plot_deterministic<P, X: Copy, S: FnOnce(&P, usize) -> (Result<(Vec<X>, Vec<[X; 4]>), SolverError>, Duration)>(
    physics: P,
    steps: usize,
    solve: S,
    first: Result<Plotter<X>, SolverError>,
    first_time: Duration,
    second: Result<Plotter<X>, SolverError>,
    second_time: Duration,
)
    requires
        is_profile_plot(physics, steps, solve, first, first_time),
        is_profile_plot(physics, steps, solve, second, second_time),
        forall|a: (Result<(Vec<X>, Vec<[X; 4]>), SolverError>, Duration), b: (Result<(Vec<X>, Vec<[X; 4]>), SolverError>, Duration)|
            #[trigger] call_ensures(solve, (&physics, steps), a)
                && #[trigger] call_ensures(solve, (&physics, steps), b) ==> a.0 == b.0,
    ensures
        crate::plotter::same_outcome(first, second),
{
    let sa = choose|solved: Result<(Vec<X>, Vec<[X; 4]>), SolverError>| {
        &&& call_ensures(solve, (&physics, steps), (solved, first_time))
        &&& #[trigger] profile_plot_from(solved, first)
    };
    let sb = choose|solved: Result<(Vec<X>, Vec<[X; 4]>), SolverError>| {
        &&& call_ensures(solve, (&physics, steps), (solved, second_time))
        &&& #[trigger] profile_plot_from(solved, second)
    };
    assert(sa == sb);
    if sa is Ok {
        let a = first->Ok_0;
        let b = second->Ok_0;
        assert forall|k: int| 0 <= k < 4 implies
            #[trigger] b.series_view()[k].points_view() == a.series_view()[k].points_view() by {
            assert(b.series_view()[k].points_view() == a.series_view()[k].points_view());
        }
    }
}

/// The profile plot's series carry the powers they are labelled with: "Forward signal" pairs
/// each position with component 0 of the powers there, "Backward signal" with component 1,
/// "Forward pump" with component 2 and "Backward pump" with component 3, at every point the
/// solve's samples reach; a failed solve is the plot's error.
pub proof fn lemma_profile_plot_series_hold_their_powers<P, X: Copy, S: FnOnce(&P, usize) -> (Result<(Vec<X>, Vec<[X; 4]>), SolverError>, Duration)>(
    physics: P,
    steps: usize,
    solve: S,
    plot: Result<Plotter<X>, SolverError>,
    compute_time: Duration,
)
    requires
        is_profile_plot(physics, steps, solve, plot, compute_time),
    ensures
        exists|solved: Result<(Vec<X>, Vec<[X; 4]>), SolverError>| {
            &&& #[trigger] call_ensures(solve, (&physics, steps), (solved, compute_time))
            &&& match solved {
                Err(error) => plot == Err::<Plotter<X>, SolverError>(error),
                Ok(sample) => plot is Ok && {
                    &&& plot->Ok_0.series_view().len() == 4
                    &&& plot->Ok_0.series_view()[0].label_view() == Some("Forward signal"@)
                    &&& plot->Ok_0.series_view()[0].points_view() == Seq::new((if sample.0@.len() < sample.1@.len() { sample.0@.len() } else { sample.1@.len() }), |i: int| [sample.0@[i], sample.1@[i][0]])
                    &&& plot->Ok_0.series_view()[1].label_view() == Some("Backward signal"@)
                    &&& plot->Ok_0.series_view()[1].points_view() == Seq::new((if sample.0@.len() < sample.1@.len() { sample.0@.len() } else { sample.1@.len() }), |i: int| [sample.0@[i], sample.1@[i][1]])
                    &&& plot->Ok_0.series_view()[2].label_view() == Some("Forward pump"@)
                    &&& plot->Ok_0.series_view()[2].points_view() == Seq::new((if sample.0@.len() < sample.1@.len() { sample.0@.len() } else { sample.1@.len() }), |i: int| [sample.0@[i], sample.1@[i][2]])
                    &&& plot->Ok_0.series_view()[3].label_view() == Some("Backward pump"@)
                    &&& plot->Ok_0.series_view()[3].points_view() == Seq::new((if sample.0@.len() < sample.1@.len() { sample.0@.len() } else { sample.1@.len() }), |i: int| [sample.0@[i], sample.1@[i][3]])
                },
            }
        },
{
    let solved = choose|solved: Result<(Vec<X>, Vec<[X; 4]>), SolverError>| {
        &&& call_ensures(solve, (&physics, steps), (solved, compute_time))
        &&& #[trigger] profile_plot_from(solved, plot)
    };
    if solved is Ok {
        let z = solved->Ok_0.0@;
        let powers = solved->Ok_0.1@;
        let p = plot->Ok_0;
        let n = paired_len(z.len() as int, powers.len() as int);
        assert forall|k: int| 0 <= k < 4 implies
            #[trigger] p.series_view()[k].points_view() == power_points(z, powers, k, n) by {}
        assert(p.series_view()[0].points_view() =~= Seq::new(n as nat, |i: int| [z[i], powers[i][0]]));
        assert(p.series_view()[1].points_view() =~= Seq::new(n as nat, |i: int| [z[i], powers[i][1]]));
        assert(p.series_view()[2].points_view() =~= Seq::new(n as nat, |i: int| [z[i], powers[i][2]]));
        assert(p.series_view()[3].points_view() =~= Seq::new(n as nat, |i: int| [z[i], powers[i][3]]));
        assert(p.series_view()[0].label_view() == Some(profile_series_labels()[0]));
        assert(p.series_view()[1].label_view() == Some(profile_series_labels()[1]));
        assert(p.series_view()[2].label_view() == Some(profile_series_labels()[2]));
        assert(p.series_view()[3].label_view() == Some(profile_series_labels()[3]));
    }
    assert(call_ensures(solve, (&physics, steps), (solved, compute_time)));
}

impl<P> LaserParameters<P> {
    /// The profile plot.  `solve` is handed the physical parameters and the step count, and
    /// solves the full lasing profile, giving the grid positions and the four powers (in mW) at
    /// each point, with the time the solve took; that time becomes the parameters' compute time
    /// whether the solve succeeded or not, and nothing else of them changes.  An error of the
    /// solve is the plot's error, and otherwise the plot is `field_profile_plot` of the solution.
    pub fn profile_plot<X: Copy, S>(&mut self, solve: S) -> (plot: Result<Plotter<X>, SolverError>)
        where S: FnOnce(&P, usize) -> (Result<(Vec<X>, Vec<[X; 4]>), SolverError>, Duration),
        requires
            call_requires(solve, (&old(self).physics, old(self).steps)),
        ensures
            final(self).physics == old(self).physics,
            final(self).steps == old(self).steps,
            final(self).compute_time is Some,
            is_profile_plot(old(self).physics, old(self).steps, solve, plot, final(self).compute_time->Some_0),
    {
        let (solved, elapsed) = solve(&self.physics, self.steps);
        self.compute_time = Some(elapsed);
        let ghost outcome = solved;
        match solved {
            Ok((z, powers)) => {
                let plot = field_profile_plot(z.as_slice(), powers.as_slice());
                assert(profile_plot_from(outcome, Ok::<Plotter<X>, SolverError>(plot)));
                Ok(plot)
            },
            Err(error) => {
                assert(profile_plot_from(outcome, Err::<Plotter<X>, SolverError>(error)));
                Err(error)
            },
        }
    }
}

} // verus!
