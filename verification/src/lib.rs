//! Mission control for an autonomous aerial vehicle: the geometry of flying
//! through a planar aperture, the state machines of the three missions, and the
//! bookkeeping that ties markers to apertures.
//!
//! Lengths are whole millimetres and the components of a local axis are whole
//! millionths, so every decision in this crate is exact integer arithmetic.

use vstd::prelude::*;

pub mod actions;
pub mod events;
pub mod geometry;
pub mod msgs;
pub mod service_clients;
pub mod task1;
pub mod task2;
pub mod task3;
pub mod task_manager;

verus! {

/// The name under which the node is known to its collaborators.
pub const NODE_NAME: &'static str = "task_manager";

} // verus!
