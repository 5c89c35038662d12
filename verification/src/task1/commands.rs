//! The commands of the first mission.

use vstd::prelude::*;

verus! {

/// The command to begin the mission.
#[derive(Clone, Copy, Debug, PartialEq, Eq, Structural)]
pub struct Start {}

} // verus!
