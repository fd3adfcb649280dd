//! Vocabulary of the one-dimensional root finders: their errors and the ways a bracket can be
//! split.

use vstd::prelude::*;

verus! {

/// Why a root finder gave up.
#[derive(Debug)]
pub enum RootFindError {
    /// The function has the same sign at both ends of the bracket.
    RootNotBracketed,
    /// The iteration budget ran out before the tolerance was met.
    DidNotConverge,
}

impl RootFindError {
    /// The human-readable description of the error.
    pub fn message(&self) -> (text: &'static str)
        ensures
            text@ == root_find_error_text(*self),
    {
        match self {
            RootFindError::RootNotBracketed => "root is not bracketed",
            RootFindError::DidNotConverge => "root finder did not converge",
        }
    }
}

/// The description that `RootFindError::message` gives.
pub open spec fn root_find_error_text(error: RootFindError) -> Seq<char> {
    match error {
        RootFindError::RootNotBracketed => "root is not bracketed"@,
        RootFindError::DidNotConverge => "root finder did not converge"@,
    }
}

/// Where a bisection bracket is split.
#[derive(Debug, Clone, Copy)]
pub enum Midpoint {
    /// Halfway between the ends.
    Arithmetic,
    /// At the geometric mean of the ends.
    Geometric,
    /// Where the line through the end values, in log-abscissa, crosses zero.
    Interp,
}

} // verus!
