//! The error type shared by the laser solvers.

use vstd::prelude::*;

use crate::maths::picard::{PicardError, picard_error_text};
use crate::maths::rootfind::{RootFindError, root_find_error_text};

verus! {

/// Why a laser solve failed.
#[derive(Debug)]
pub enum SolverError {
    /// A root finder failed.
    RootFind(RootFindError),
    /// A Picard iteration failed.
    Picard(PicardError),
    /// No lasing threshold was found.
    ThresholdNotFound,
}

/// The description that `SolverError::message` gives: the inner error's own description, or
/// the threshold message.
pub open spec fn solver_error_text(error: SolverError) -> Seq<char> {
    match error {
        SolverError::RootFind(inner) => root_find_error_text(inner),
        SolverError::Picard(inner) => picard_error_text(inner),
        SolverError::ThresholdNotFound => "threshold not found"@,
    }
}

impl SolverError {
    /// The human-readable description of the error.
    pub fn message(&self) -> (text: &'static str)
        ensures
            text@ == solver_error_text(*self),
    {
        match self {
            SolverError::RootFind(inner) => inner.message(),
            SolverError::Picard(inner) => inner.message(),
            SolverError::ThresholdNotFound => "threshold not found",
        }
    }

    /// Whether the error wraps a lower-level error (a root-finder or Picard failure).
    pub fn has_source(&self) -> (wraps: bool)
        ensures
            wraps == !(*self is ThresholdNotFound),
    {
        match self {
            SolverError::ThresholdNotFound => false,
            _ => true,
        }
    }
}

impl From<RootFindError> for SolverError {
    fn from(error: RootFindError) -> (wrapped: Self) {
        SolverError::RootFind(error)
    }
}

impl vstd::std_specs::convert::FromSpecImpl<RootFindError> for SolverError {
    open spec fn obeys_from_spec() -> bool {
        true
    }

    open spec fn from_spec(v: RootFindError) -> Self {
        SolverError::RootFind(v)
    }
}

impl From<PicardError> for SolverError {
    fn from(error: PicardError) -> (wrapped: Self) {
        SolverError::Picard(error)
    }
}

impl vstd::std_specs::convert::FromSpecImpl<PicardError> for SolverError {
    open spec fn obeys_from_spec() -> bool {
        true
    }

    open spec fn from_spec(v: PicardError) -> Self {
        SolverError::Picard(v)
    }
}

} // verus!
