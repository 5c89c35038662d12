//! The first mission: find the entry of a building, fly in, find the cubes
//! inside, come back and land.

pub mod commands;
pub mod drone_state;
pub mod events;
pub mod transitions;
