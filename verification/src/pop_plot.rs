//! The plot of the dopant's level populations along the fibre.

use vstd::prelude::*;

use crate::dfb::LaserParameters;
use crate::error::SolverError;
use crate::kappa_plot::paired_len;
use crate::plotter::{PlotLine, Plotter, Points};

verus! {

/// What the population plot is when the solve gives `solved`: its error, or series "Ground state" and "Excited state" pairing each position with the populations there, x axis "Position (m)", y axis "Population fraction", nothing else.
pub open spec fn pops_plot_from<X: Copy>(solved: Result<(Vec<X>, Vec<(X, X)>), SolverError>, plot: Result<Plotter<X>, SolverError>) -> bool {
    match solved {
        Err(error) => plot == Err::<Plotter<X>, SolverError>(error),
        Ok((z, populations)) => plot is Ok && {
            let plot = plot->Ok_0;
            let n = paired_len(z@.len() as int, populations@.len() as int);
            &&& plot.series_view().len() == 2
            &&& plot.series_view()[0].points_view().len() == n
            &&& plot.series_view()[1].points_view().len() == n
            &&& forall|i: int| 0 <= i < n ==>
                #[trigger] plot.series_view()[0].points_view()[i] == [z@[i], populations@[i].0]
            &&& forall|i: int| 0 <= i < n ==>
                #[trigger] plot.series_view()[1].points_view()[i] == [z@[i], populations@[i].1]
            &&& plot.series_view()[0].label_view() == Some("Ground state"@)
            &&& plot.series_view()[1].label_view() == Some("Excited state"@)
            &&& plot.horizontal_view().len() == 0
            &&& plot.vertical_view().len() == 0
            &&& plot.x_label_view() == "Position (m)"@
            &&& plot.y_label_view() == "Population fraction"@
            &&& plot.title_view() == Seq::<char>::empty()
            &&& plot.x_limits_view() is None
        },
    }
}

/// `plot` is the population plot of what `solve` gives for `physics` and `steps`.
pub open spec fn is_pops_plot<P, X: Copy, S: FnOnce(&P, usize) -> Result<(Vec<X>, Vec<(X, X)>), SolverError>>(physics: P, steps: usize, solve: S, plot: Result<Plotter<X>, SolverError>) -> bool {
    exists|solved: Result<(Vec<X>, Vec<(X, X)>), SolverError>| {
        &&& call_ensures(solve, (&physics, steps), solved)
        &&& #[trigger] pops_plot_from(solved, plot)
    }
}

/// With a solver closure that always gives the same result for the same parameters, any two
/// population plots of the same parameters have the same outcome: the same error, or the same
/// plot.
pub proof fn lemma_pops_plot_deterministic<P, X: Copy, S: FnOnce(&P, usize) -> Result<(Vec<X>, Vec<(X, X)>), SolverError>>(
    physics: P,
    steps: usize,
    solve: S,
    first: Result<Plotter<X>, SolverError>,
    second: Result<Plotter<X>, SolverError>,
)
    requires
        is_pops_plot(physics, steps, solve, first),
        is_pops_plot(physics, steps, solve, second),
        forall|a: Result<(Vec<X>, Vec<(X, X)>), SolverError>, b: Result<(Vec<X>, Vec<(X, X)>), SolverError>|
            #[trigger] call_ensures(solve, (&physics, steps), a)
                && #[trigger] call_ensures(solve, (&physics, steps), b) ==> a == b,
    ensures
        crate::plotter::same_outcome(first, second),
{
    let sa = choose|solved: Result<(Vec<X>, Vec<(X, X)>), SolverError>| {
        &&& call_ensures(solve, (&physics, steps), solved)
        &&& #[trigger] pops_plot_from(solved, first)
    };
    let sb = choose|solved: Result<(Vec<X>, Vec<(X, X)>), SolverError>| {
        &&& call_ensures(solve, (&physics, steps), solved)
        &&& #[trigger] pops_plot_from(solved, second)
    };
    assert(sa == sb);
    if sa is Ok {
        let a = first->Ok_0;
        let b = second->Ok_0;
        assert(b.series_view()[0].points_view() =~= a.series_view()[0].points_view());
        assert(b.series_view()[1].points_view() =~= a.series_view()[1].points_view());
    }
}

/// Each position is paired with the populations at that same point, the last one included:
/// the "Ground state" series is `[z[i], ground[i]]` and the "Excited state" series
/// `[z[i], excited[i]]` for every point both samples reach, and nothing else; a failed solve is
/// the plot's error.
pub proof fn lemma_pops_plot_pairs_each_point<P, X: Copy, S: FnOnce(&P, usize) -> Result<(Vec<X>, Vec<(X, X)>), SolverError>>(
    physics: P,
    steps: usize,
    solve: S,
    plot: Result<Plotter<X>, SolverError>,
)
    requires
        is_pops_plot(physics, steps, solve, plot),
    ensures
        exists|solved: Result<(Vec<X>, Vec<(X, X)>), SolverError>| {
            &&& #[trigger] call_ensures(solve, (&physics, steps), solved)
            &&& match solved {
                Err(error) => plot == Err::<Plotter<X>, SolverError>(error),
                Ok(sample) => plot is Ok && {
                    let z = sample.0@;
                    let populations = sample.1@;
                    let n = if z.len() < populations.len() { z.len() } else { populations.len() };
                    &&& plot->Ok_0.series_view().len() == 2
                    &&& plot->Ok_0.series_view()[0].label_view() == Some("Ground state"@)
                    &&& plot->Ok_0.series_view()[1].label_view() == Some("Excited state"@)
                    &&& plot->Ok_0.series_view()[0].points_view()
                        == Seq::new(n as nat, |i: int| [z[i], populations[i].0])
                    &&& plot->Ok_0.series_view()[1].points_view()
                        == Seq::new(n as nat, |i: int| [z[i], populations[i].1])
                },
            }
        },
{
    let solved = choose|solved: Result<(Vec<X>, Vec<(X, X)>), SolverError>| {
        &&& call_ensures(solve, (&physics, steps), solved)
        &&& #[trigger] pops_plot_from(solved, plot)
    };
    if solved is Ok {
        let z = solved->Ok_0.0@;
        let populations = solved->Ok_0.1@;
        let n = if z.len() < populations.len() { z.len() } else { populations.len() };
        assert(plot->Ok_0.series_view()[0].points_view() =~= Seq::new(n as nat, |i: int| [z[i], populations[i].0]));
        assert(plot->Ok_0.series_view()[1].points_view() =~= Seq::new(n as nat, |i: int| [z[i], populations[i].1]));
    }
    assert(call_ensures(solve, (&physics, steps), solved));
}

impl<P> LaserParameters<P> {
    /// The population plot.  `solve` is handed the physical parameters and the step count, and
    /// solves the lasing profile, giving the grid positions and the (ground, excited)
    /// population fractions at each point; an error of the solve is the plot's error.
    /// Otherwise series "Ground state" and "Excited state" pair each position with the
    /// populations there (as far as both reach), the x axis is "Position (m)" and the y axis
    /// "Population fraction".
    pub fn pops_plot<X: Copy, S>(&mut self, solve: S) -> (plot: Result<Plotter<X>, SolverError>)
        where S: FnOnce(&P, usize) -> Result<(Vec<X>, Vec<(X, X)>), SolverError>,
        requires
            call_requires(solve, (&old(self).physics, old(self).steps)),
        ensures
            *final(self) == *old(self),
            is_pops_plot(old(self).physics, old(self).steps, solve, plot),
    {
        let solved = solve(&self.physics, self.steps);
        let ghost outcome = solved;
        let (z, populations) = match solved {
            Ok(solution) => solution,
            Err(error) => {
                assert(pops_plot_from(outcome, Err::<Plotter<X>, SolverError>(error)));
                return Err(error);
            },
        };
        let n = if z.len() < populations.len() { z.len() } else { populations.len() };
        let mut ground: Points<X> = Vec::new();
        let mut excited: Points<X> = Vec::new();
        let mut i: usize = 0;
        while i < n
            invariant
                n == paired_len(z@.len() as int, populations@.len() as int),
                0 <= i <= n,
                ground@.len() == i,
                excited@.len() == i,
                forall|j: int| 0 <= j < i ==> #[trigger] ground@[j] == [z@[j], populations@[j].0],
                forall|j: int| 0 <= j < i ==> #[trigger] excited@[j] == [z@[j], populations@[j].1],
            decreases n - i,
        {
            let (ground_fraction, excited_fraction) = populations[i];
            ground.push([z[i], ground_fraction]);
            excited.push([z[i], excited_fraction]);
            i += 1;
        }
        let mut plot = Plotter::new();
        let line: &mut PlotLine<X> = plot.add_points(ground);
        line.label("Ground state");
        let line: &mut PlotLine<X> = plot.add_points(excited);
        line.label("Excited state");
        plot.xlabel("Position (m)");
        plot.ylabel("Population fraction");
        proof {
            reveal_strlit("Ground state");
            reveal_strlit("Excited state");
            reveal_strlit("Position (m)");
            reveal_strlit("Population fraction");
            assert(pops_plot_from(outcome, Ok::<Plotter<X>, SolverError>(plot)));
        }
        Ok(plot)
    }
}

} // verus!
