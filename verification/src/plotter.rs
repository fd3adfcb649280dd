//! A description of a two-dimensional plot: data series, labelled reference lines, axis
//! labels and limits.  Drawing it is left to the user interface.

use vstd::prelude::*;

use crate::error::SolverError;
use crate::timing::duration_from_secs;
use std::time::Duration;

verus! {

/// The number of colours the lines of a plot cycle through.
pub const COLOUR_COUNT: usize = 10;

/// Position `(offset + index) % COLOUR_COUNT` of the colour cycle, computed without overflow.
fn cycle_position(offset: usize, index: usize) -> (position: usize)
    ensures
        position == (offset + index) % (COLOUR_COUNT as int),
{
    proof {
        vstd::arithmetic::div_mod::lemma_add_mod_noop(offset as int, index as int, COLOUR_COUNT as int);
    }
    (offset % COLOUR_COUNT + index % COLOUR_COUNT) % COLOUR_COUNT
}

/// The points of a data series, as `[x, y]` pairs.
pub type Points<X> = Vec<[X; 2]>;

/// A data series, optionally labelled for the legend.
pub struct PlotLine<X> {
    points: Points<X>,
    label: Option<String>,
}

/// A horizontal or vertical reference line at `value`, optionally labelled.
pub struct ReferenceLine<X> {
    value: X,
    label: Option<String>,
}

/// The text of an optional label.
pub open spec fn label_text(label: Option<String>) -> Option<Seq<char>> {
    match label {
        Some(text) => Some(text@),
        None => None,
    }
}

impl<X> PlotLine<X> {
    /// The series' points.
    pub closed spec fn points_view(&self) -> Seq<[X; 2]> {
        self.points@
    }

    /// The series' label.
    pub closed spec fn label_view(&self) -> Option<Seq<char>> {
        label_text(self.label)
    }

    /// Gives the series a legend label.
    pub fn label(&mut self, label: &str) -> (line: &mut Self)
        ensures
            line.points_view() == old(self).points_view(),
            line.label_view() == Some(label@),
            *final(self) == *final(line),
    {
        self.label = Some(label.to_owned());
        self
    }

    /// The series' points.
    pub fn points(&self) -> (points: &[[X; 2]])
        ensures
            points@ == self.points_view(),
    {
        self.points.as_slice()
    }

    /// The series' label, if it has one.
    pub fn label_str(&self) -> (label: Option<&str>)
        ensures
            label_text_of(label) == self.label_view(),
    {
        match &self.label {
            Some(text) => Some(text.as_str()),
            None => None,
        }
    }
}

/// The text of an optional borrowed label.
pub open spec fn label_text_of(label: Option<&str>) -> Option<Seq<char>> {
    match label {
        Some(text) => Some(text@),
        None => None,
    }
}

impl<X: Copy> ReferenceLine<X> {
    /// Where the line stands.
    pub closed spec fn value_view(&self) -> X {
        self.value
    }

    /// The line's label.
    pub closed spec fn label_view(&self) -> Option<Seq<char>> {
        label_text(self.label)
    }

    /// Gives the line a legend label.
    pub fn label(&mut self, label: &str) -> (line: &mut Self)
        ensures
            line.value_view() == old(self).value_view(),
            line.label_view() == Some(label@),
            *final(self) == *final(line),
    {
        self.label = Some(label.to_owned());
        self
    }

    /// Where the line stands.
    pub fn value(&self) -> (value: X)
        ensures
            value == self.value_view(),
    {
        self.value
    }

    /// The line's label, if it has one.
    pub fn label_str(&self) -> (label: Option<&str>)
        ensures
            label_text_of(label) == self.label_view(),
    {
        match &self.label {
            Some(text) => Some(text.as_str()),
            None => None,
        }
    }
}

/// A plot under construction.
pub struct Plotter<X> {
    series: Vec<PlotLine<X>>,
    horizontal_lines: Vec<ReferenceLine<X>>,
    vertical_lines: Vec<ReferenceLine<X>>,
    x_label: String,
    y_label: String,
    title: String,
    x_limits: Option<(X, X)>,
    compute_time: Duration,
}

impl<X: Copy> Plotter<X> {
    /// The data series, in the order they were added.
    pub closed spec fn series_view(&self) -> Seq<PlotLine<X>> {
        self.series@
    }

    /// The horizontal reference lines, in the order they were added.
    pub closed spec fn horizontal_view(&self) -> Seq<ReferenceLine<X>> {
        self.horizontal_lines@
    }

    /// The vertical reference lines, in the order they were added.
    pub closed spec fn vertical_view(&self) -> Seq<ReferenceLine<X>> {
        self.vertical_lines@
    }

    /// The x-axis label.
    pub closed spec fn x_label_view(&self) -> Seq<char> {
        self.x_label@
    }

    /// The y-axis label.
    pub closed spec fn y_label_view(&self) -> Seq<char> {
        self.y_label@
    }

    /// The title.
    pub closed spec fn title_view(&self) -> Seq<char> {
        self.title@
    }

    /// The x-axis range, if one was set.
    pub closed spec fn x_limits_view(&self) -> Option<(X, X)> {
        self.x_limits
    }

    /// The time recorded as spent computing the plot.
    pub closed spec fn time_view(&self) -> Duration {
        self.compute_time
    }

    /// `other` shows the same plot as `self`: the same series (points and labels), the same
    /// reference lines (positions and labels), labels, title and limits.
    pub open spec fn same_plot(&self, other: &Self) -> bool {
        &&& other.series_view().len() == self.series_view().len()
        &&& forall|i: int| 0 <= i < self.series_view().len() ==> {
            &&& #[trigger] other.series_view()[i].points_view() == self.series_view()[i].points_view()
            &&& other.series_view()[i].label_view() == self.series_view()[i].label_view()
        }
        &&& other.horizontal_view().len() == self.horizontal_view().len()
        &&& forall|i: int| 0 <= i < self.horizontal_view().len() ==> {
            &&& #[trigger] other.horizontal_view()[i].value_view() == self.horizontal_view()[i].value_view()
            &&& other.horizontal_view()[i].label_view() == self.horizontal_view()[i].label_view()
        }
        &&& other.vertical_view().len() == self.vertical_view().len()
        &&& forall|i: int| 0 <= i < self.vertical_view().len() ==> {
            &&& #[trigger] other.vertical_view()[i].value_view() == self.vertical_view()[i].value_view()
            &&& other.vertical_view()[i].label_view() == self.vertical_view()[i].label_view()
        }
        &&& other.x_label_view() == self.x_label_view()
        &&& other.y_label_view() == self.y_label_view()
        &&& other.title_view() == self.title_view()
        &&& other.x_limits_view() == self.x_limits_view()
    }

    /// `other` differs from `self` at most in its data series.
    pub open spec fn same_except_series(&self, other: &Self) -> bool {
        &&& other.horizontal_view() == self.horizontal_view()
        &&& other.vertical_view() == self.vertical_view()
        &&& other.x_label_view() == self.x_label_view()
        &&& other.y_label_view() == self.y_label_view()
        &&& other.title_view() == self.title_view()
        &&& other.x_limits_view() == self.x_limits_view()
        &&& other.time_view() == self.time_view()
    }

    /// An empty plot: no series, no reference lines, empty labels and title, no limits, and a
    /// compute time of zero.
    pub fn new() -> (plot: Self)
        ensures
            plot.time_view() == crate::timing::duration_of_secs(0),
            plot.series_view().len() == 0,
            plot.horizontal_view().len() == 0,
            plot.vertical_view().len() == 0,
            plot.x_label_view() == Seq::<char>::empty(),
            plot.y_label_view() == Seq::<char>::empty(),
            plot.title_view() == Seq::<char>::empty(),
            plot.x_limits_view() is None,
    {
        Plotter {
            series: Vec::new(),
            horizontal_lines: Vec::new(),
            vertical_lines: Vec::new(),
            x_label: String::new(),
            y_label: String::new(),
            title: String::new(),
            x_limits: None,
            compute_time: duration_from_secs(0),
        }
    }

    /// Adds an unlabelled series given as `[x, y]` points, and hands it back for labelling.
    pub fn add_points(&mut self, points: Points<X>) -> (line: &mut PlotLine<X>)
        ensures
            line.points_view() == points@,
            line.label_view() is None,
            final(self).series_view() == old(self).series_view().push(*final(line)),
            old(self).same_except_series(final(self)),
    {
        self.series.push(PlotLine { points, label: None });
        let last = self.series.len() - 1;
        &mut self.series[last]
    }

    /// Adds an unlabelled series pairing `x[i]` with `y[i]`, and hands it back for labelling.
    pub fn plot(&mut self, x: &[X], y: &[X]) -> (line: &mut PlotLine<X>)
        requires
            x@.len() == y@.len(),
        ensures
            line.points_view().len() == x@.len(),
            forall|i: int| 0 <= i < x@.len() ==> #[trigger] line.points_view()[i] == [x@[i], y@[i]],
            line.label_view() is None,
            final(self).series_view() == old(self).series_view().push(*final(line)),
            old(self).same_except_series(final(self)),
    {
        let mut points: Points<X> = Vec::new();
        let n = x.len();
        let mut i: usize = 0;
        while i < n
            invariant
                n == x@.len(),
                n == y@.len(),
                0 <= i <= n,
                points@.len() == i,
                forall|j: int| 0 <= j < i ==> #[trigger] points@[j] == [x@[j], y@[j]],
            decreases n - i,
        {
            points.push([x[i], y[i]]);
            i += 1;
        }
        self.add_points(points)
    }

    /// Sets the x-axis label.
    pub fn xlabel(&mut self, label: &str)
        ensures
            final(self).x_label_view() == label@,
            final(self).series_view() == old(self).series_view(),
            final(self).horizontal_view() == old(self).horizontal_view(),
            final(self).vertical_view() == old(self).vertical_view(),
            final(self).y_label_view() == old(self).y_label_view(),
            final(self).title_view() == old(self).title_view(),
            final(self).x_limits_view() == old(self).x_limits_view(),
            final(self).time_view() == old(self).time_view(),
    {
        self.x_label = label.to_owned();
    }

    /// Sets the y-axis label.
    pub fn ylabel(&mut self, label: &str)
        ensures
            final(self).y_label_view() == label@,
            final(self).series_view() == old(self).series_view(),
            final(self).horizontal_view() == old(self).horizontal_view(),
            final(self).vertical_view() == old(self).vertical_view(),
            final(self).x_label_view() == old(self).x_label_view(),
            final(self).title_view() == old(self).title_view(),
            final(self).x_limits_view() == old(self).x_limits_view(),
            final(self).time_view() == old(self).time_view(),
    {
        self.y_label = label.to_owned();
    }

    /// Sets the title.
    pub fn title(&mut self, title: &str)
        ensures
            final(self).title_view() == title@,
            final(self).series_view() == old(self).series_view(),
            final(self).horizontal_view() == old(self).horizontal_view(),
            final(self).vertical_view() == old(self).vertical_view(),
            final(self).x_label_view() == old(self).x_label_view(),
            final(self).y_label_view() == old(self).y_label_view(),
            final(self).x_limits_view() == old(self).x_limits_view(),
            final(self).time_view() == old(self).time_view(),
    {
        self.title = title.to_owned();
    }

    /// Sets the x-axis range.
    pub fn xlim(&mut self, lower: X, upper: X)
        ensures
            final(self).x_limits_view() == Some((lower, upper)),
            final(self).series_view() == old(self).series_view(),
            final(self).horizontal_view() == old(self).horizontal_view(),
            final(self).vertical_view() == old(self).vertical_view(),
            final(self).x_label_view() == old(self).x_label_view(),
            final(self).y_label_view() == old(self).y_label_view(),
            final(self).title_view() == old(self).title_view(),
            final(self).time_view() == old(self).time_view(),
    {
        self.x_limits = Some((lower, upper));
    }

    /// Adds an unlabelled horizontal line at height `y`, and hands it back for labelling.
    pub fn axhline(&mut self, y: X) -> (line: &mut ReferenceLine<X>)
        ensures
            line.value_view() == y,
            line.label_view() is None,
            final(self).horizontal_view() == old(self).horizontal_view().push(*final(line)),
            final(self).series_view() == old(self).series_view(),
            final(self).vertical_view() == old(self).vertical_view(),
            final(self).x_label_view() == old(self).x_label_view(),
            final(self).y_label_view() == old(self).y_label_view(),
            final(self).title_view() == old(self).title_view(),
            final(self).x_limits_view() == old(self).x_limits_view(),
            final(self).time_view() == old(self).time_view(),
    {
        self.horizontal_lines.push(ReferenceLine { value: y, label: None });
        let last = self.horizontal_lines.len() - 1;
        &mut self.horizontal_lines[last]
    }

    /// Adds an unlabelled vertical line at `x`, and hands it back for labelling.
    pub fn axvline(&mut self, x: X) -> (line: &mut ReferenceLine<X>)
        ensures
            line.value_view() == x,
            line.label_view() is None,
            final(self).vertical_view() == old(self).vertical_view().push(*final(line)),
            final(self).series_view() == old(self).series_view(),
            final(self).horizontal_view() == old(self).horizontal_view(),
            final(self).x_label_view() == old(self).x_label_view(),
            final(self).y_label_view() == old(self).y_label_view(),
            final(self).title_view() == old(self).title_view(),
            final(self).x_limits_view() == old(self).x_limits_view(),
            final(self).time_view() == old(self).time_view(),
    {
        self.vertical_lines.push(ReferenceLine { value: x, label: None });
        let last = self.vertical_lines.len() - 1;
        &mut self.vertical_lines[last]
    }

    /// The data series, in the order they were added.
    pub fn series(&self) -> (series: &[PlotLine<X>])
        ensures
            series@ == self.series_view(),
    {
        self.series.as_slice()
    }

    /// The horizontal reference lines, in the order they were added.
    pub fn horizontal_lines(&self) -> (lines: &[ReferenceLine<X>])
        ensures
            lines@ == self.horizontal_view(),
    {
        self.horizontal_lines.as_slice()
    }

    /// The vertical reference lines, in the order they were added.
    pub fn vertical_lines(&self) -> (lines: &[ReferenceLine<X>])
        ensures
            lines@ == self.vertical_view(),
    {
        self.vertical_lines.as_slice()
    }

    /// The x-axis label.
    pub fn x_label(&self) -> (label: &str)
        ensures
            label@ == self.x_label_view(),
    {
        self.x_label.as_str()
    }

    /// The y-axis label.
    pub fn y_label(&self) -> (label: &str)
        ensures
            label@ == self.y_label_view(),
    {
        self.y_label.as_str()
    }

    /// The title.
    pub fn title_str(&self) -> (title: &str)
        ensures
            title@ == self.title_view(),
    {
        self.title.as_str()
    }

    /// The colour of the series at `index`: series take the colours of the cycle in order.
    pub fn series_colour(&self, index: usize) -> (colour: usize)
        ensures
            colour == index % COLOUR_COUNT,
    {
        index % COLOUR_COUNT
    }

    /// The colour of the horizontal line at `index`: the horizontal lines take the colours of
    /// the cycle in order after the series.
    pub fn horizontal_colour(&self, index: usize) -> (colour: usize)
        ensures
            colour == (self.series_view().len() + index) % (COLOUR_COUNT as int),
    {
        cycle_position(self.series.len(), index)
    }

    /// The colour of the vertical line at `index`: the vertical lines take the colours of the
    /// cycle in order after the series and the horizontal lines.
    pub fn vertical_colour(&self, index: usize) -> (colour: usize)
        ensures
            colour == (self.series_view().len() + self.horizontal_view().len() + index)
                % (COLOUR_COUNT as int),
    {
        let offset = cycle_position(self.series.len(), self.horizontal_lines.len());
        proof {
            vstd::arithmetic::div_mod::lemma_add_mod_noop(
                (self.series_view().len() + self.horizontal_view().len()) as int,
                index as int,
                COLOUR_COUNT as int,
            );
            vstd::arithmetic::div_mod::lemma_mod_twice(
                (self.series_view().len() + self.horizontal_view().len()) as int,
                COLOUR_COUNT as int,
            );
            vstd::arithmetic::div_mod::lemma_add_mod_noop(offset as int, index as int, COLOUR_COUNT as int);
        }
        cycle_position(offset, index)
    }

    /// Records `compute_time` as the time spent computing the plot; nothing else changes.
    pub fn set_compute_time(&mut self, compute_time: Duration)
        ensures
            final(self).time_view() == compute_time,
            final(self).series_view() == old(self).series_view(),
            final(self).horizontal_view() == old(self).horizontal_view(),
            final(self).vertical_view() == old(self).vertical_view(),
            final(self).x_label_view() == old(self).x_label_view(),
            final(self).y_label_view() == old(self).y_label_view(),
            final(self).title_view() == old(self).title_view(),
            final(self).x_limits_view() == old(self).x_limits_view(),
    {
        self.compute_time = compute_time;
    }

    /// The time recorded as spent computing the plot.
    pub fn compute_time(&self) -> (compute_time: Duration)
        ensures
            compute_time == self.time_view(),
    {
        self.compute_time
    }

    /// The x-axis range, if one was set.
    pub fn x_limits(&self) -> (limits: Option<(X, X)>)
        ensures
            limits == self.x_limits_view(),
    {
        self.x_limits
    }
}

/// Two plot results agree: both the same error, or both the same plot.
pub open spec fn same_outcome<X: Copy>(first: Result<Plotter<X>, SolverError>, second: Result<Plotter<X>, SolverError>) -> bool {
    match (first, second) {
        (Ok(a), Ok(b)) => a.same_plot(&b),
        (Err(a), Err(b)) => a == b,
        _ => false,
    }
}

} // verus!
