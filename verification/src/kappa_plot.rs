//! The plot of the grating's coupling coefficient along the fibre.

use vstd::prelude::*;

use crate::dfb::LaserParameters;
use crate::plotter::{PlotLine, Plotter, Points};

verus! {

/// The number of points plotted from `positions` and `kappas`: one per pair, as far as both
/// reach.
pub open spec fn paired_len(positions: int, kappas: int) -> int {
    if positions < kappas { positions } else { kappas }
}

/// `plot` is the coupling plot made from what `sample_grating` gives for `physics` and
/// `steps`: one series "Kappa" pairing each sampled position with the sampled coupling (as far
/// as both reach), x axis "Position (m)", y axis "Kappa (1/m)", nothing else.
pub open spec fn is_kappa_plot<P, X: Copy, S: FnOnce(&P, usize) -> (Vec<X>, Vec<X>)>(
    physics: P,
    steps: usize,
    sample_grating: S,
    plot: Plotter<X>,
) -> bool {
    &&& exists|samples: (Vec<X>, Vec<X>)| {
        &&& #[trigger] call_ensures(sample_grating, (&physics, steps), samples)
        &&& kappa_points_from(samples, plot)
    }
    &&& plot.series_view().len() == 1
    &&& plot.series_view()[0].label_view() == Some("Kappa"@)
    &&& plot.horizontal_view().len() == 0
    &&& plot.vertical_view().len() == 0
    &&& plot.x_label_view() == "Position (m)"@
    &&& plot.y_label_view() == "Kappa (1/m)"@
    &&& plot.title_view() == Seq::<char>::empty()
    &&& plot.x_limits_view() is None
}

/// The one series of `plot` pairs the sampled positions with the sampled couplings.
pub open spec fn kappa_points_from<X: Copy>(samples: (Vec<X>, Vec<X>), plot: Plotter<X>) -> bool {
    &&& plot.series_view().len() == 1
    &&& plot.series_view()[0].points_view().len() == paired_len(samples.0@.len() as int, samples.1@.len() as int)
    &&& forall|i: int| 0 <= i < plot.series_view()[0].points_view().len() ==>
        #[trigger] plot.series_view()[0].points_view()[i] == [samples.0@[i], samples.1@[i]]
}

/// With a sampling closure that always gives the same samples for the same parameters, any two
/// coupling plots of the same parameters are the same plot.
pub proof fn lemma_kappa_plot_deterministic<P, X: Copy, S: FnOnce(&P, usize) -> (Vec<X>, Vec<X>)>(
    physics: P,
    steps: usize,
    sample_grating: S,
    first: Plotter<X>,
    second: Plotter<X>,
)
    requires
        is_kappa_plot(physics, steps, sample_grating, first),
        is_kappa_plot(physics, steps, sample_grating, second),
        forall|a: (Vec<X>, Vec<X>), b: (Vec<X>, Vec<X>)|
            #[trigger] call_ensures(sample_grating, (&physics, steps), a)
                && #[trigger] call_ensures(sample_grating, (&physics, steps), b) ==> a == b,
    ensures
        first.same_plot(&second),
{
    let sa = choose|samples: (Vec<X>, Vec<X>)| {
        &&& #[trigger] call_ensures(sample_grating, (&physics, steps), samples)
        &&& kappa_points_from(samples, first)
    };
    let sb = choose|samples: (Vec<X>, Vec<X>)| {
        &&& #[trigger] call_ensures(sample_grating, (&physics, steps), samples)
        &&& kappa_points_from(samples, second)
    };
    assert(sa == sb);
    assert(second.series_view()[0].points_view() =~= first.series_view()[0].points_view());
}

impl<P> LaserParameters<P> {
    /// The coupling plot.  `sample_grating` is handed the physical parameters and the step
    /// count, and gives the grid positions and the coupling sampled on each step; the plot has
    /// one series "Kappa" pairing each position with the coupling of the step that starts
    /// there (the pairs run as far as both samples reach, so the right end of the fibre, which
    /// starts no step, is left out), x axis "Position (m)" and y axis "Kappa (1/m)".
    pub fn kappa_plot<X: Copy, S>(&mut self, sample_grating: S) -> (plot: Plotter<X>)
        where S: FnOnce(&P, usize) -> (Vec<X>, Vec<X>),
        requires
            call_requires(sample_grating, (&old(self).physics, old(self).steps)),
        ensures
            *final(self) == *old(self),
            is_kappa_plot(old(self).physics, old(self).steps, sample_grating, plot),
    {
        let (positions, kappas) = sample_grating(&self.physics, self.steps);
        let n = if positions.len() < kappas.len() { positions.len() } else { kappas.len() };
        let mut points: Points<X> = Vec::new();
        let mut i: usize = 0;
        while i < n
            invariant
                n == paired_len(positions@.len() as int, kappas@.len() as int),
                0 <= i <= n,
                points@.len() == i,
                forall|j: int| 0 <= j < i ==> #[trigger] points@[j] == [positions@[j], kappas@[j]],
            decreases n - i,
        {
            points.push([positions[i], kappas[i]]);
            i += 1;
        }
        let mut plot = Plotter::new();
        let line: &mut PlotLine<X> = plot.add_points(points);
        line.label("Kappa");
        plot.xlabel("Position (m)");
        plot.ylabel("Kappa (1/m)");
        proof {
            reveal_strlit("Kappa");
            reveal_strlit("Position (m)");
            reveal_strlit("Kappa (1/m)");
        }
        plot
    }
}

} // verus!
