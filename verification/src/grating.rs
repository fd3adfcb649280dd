//! Grating descriptions whose coupling needs no arithmetic.

use vstd::prelude::*;

verus! {

/// A fibre with no Bragg grating: its coupling coefficient is zero everywhere.
#[derive(Copy, Clone, Debug, Default, PartialEq)]
pub struct NoGrating;

} // verus!
