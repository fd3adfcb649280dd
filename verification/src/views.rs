//! The views the user interface offers, and the identifier under which each view's plot keeps
//! its state.

use vstd::prelude::*;

verus! {

/// The plots of the distributed-feedback laser mode.
#[derive(PartialEq, Eq, Structural, Default, Copy, Clone, Debug)]
pub enum DfbView {
    #[default]
    Profile,
    Populations,
    Kappa,
    Threshold,
    PiPosition,
    PiPositionThreshold,
}

impl DfbView {
    /// The identifier of the view's plot.
    pub fn plot_id(self) -> (id: &'static str)
        ensures
            id@ == dfb_plot_id(self),
    {
        match self {
            DfbView::Threshold => "threshold-plot",
            DfbView::Profile => "profile-plot",
            DfbView::Populations => "population-plot",
            DfbView::Kappa => "kappa-plot",
            DfbView::PiPosition => "pi-position-output-plot",
            DfbView::PiPositionThreshold => "pi-position-threshold-plot",
        }
    }
}

/// The identifier that `DfbView::plot_id` gives.
pub open spec fn dfb_plot_id(view: DfbView) -> Seq<char> {
    match view {
        DfbView::Threshold => "threshold-plot"@,
        DfbView::Profile => "profile-plot"@,
        DfbView::Populations => "population-plot"@,
        DfbView::Kappa => "kappa-plot"@,
        DfbView::PiPosition => "pi-position-output-plot"@,
        DfbView::PiPositionThreshold => "pi-position-threshold-plot"@,
    }
}

/// The plots of the amplifier mode.
#[derive(PartialEq, Eq, Structural, Default, Copy, Clone, Debug)]
pub enum AmplifierView {
    #[default]
    Profile,
}

impl AmplifierView {
    /// The identifier of the view's plot.
    pub fn plot_id(self) -> (id: &'static str)
        ensures
            id@ == amplifier_plot_id(self),
    {
        match self {
            AmplifierView::Profile => "profile-plot",
        }
    }
}

/// The identifier that `AmplifierView::plot_id` gives.
pub open spec fn amplifier_plot_id(view: AmplifierView) -> Seq<char> {
    match view {
        AmplifierView::Profile => "profile-plot"@,
    }
}

} // verus!
