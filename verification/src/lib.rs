//! Verified core of a fibre-laser solver: the Picard iteration driver, the error vocabulary of
//! the solvers, pump-scan bookkeeping, and the assembly of the plots the application shows.
//!
//! Everything numerical (field propagation, gain, root finding) works in floating point and is
//! handed in by the caller as closures; the library fixes what those closures are asked and
//! states exactly what it makes of their answers.

pub mod dfb;
pub mod error;
pub mod grating;
pub mod kappa_plot;
pub mod lase;
pub mod maths;
pub mod pi_pos_plot;
pub mod pi_pos_threshold_plot;
pub mod plotter;
pub mod pop_plot;
pub mod profile_plot;
pub mod threshold_plot;
pub mod timing;
pub mod views;
