//! The parameters a distributed-feedback laser's views are computed from.

use vstd::prelude::*;

use std::time::Duration;

verus! {

/// The parameters of a laser view: the physical description of the fibre, its pumping and its
/// solvers (`physics`, whose arithmetic belongs to the numerical solvers that read it), and the
/// number of steps the fibre is divided into, with the time the last timed view spent solving
/// (`None` before any view was timed).
pub struct LaserParameters<P> {
    pub physics: P,
    pub steps: usize,
    pub compute_time: Option<Duration>,
}

} // verus!
