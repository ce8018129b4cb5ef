//! Per-side bone groups of an avatar.

use vstd::prelude::*;

verus! {

/// The bones of one side of an avatar; none are tracked yet.
#[derive(Copy, Clone, Debug, PartialEq, Eq, Structural)]
pub struct SidedNodes {}

impl SidedNodes {
    /// The bone group of one side of a model.
    pub fn from_model() -> (r: SidedNodes)
        ensures
            r == (SidedNodes {}),
    {
        SidedNodes {}
    }
}

} // verus!
