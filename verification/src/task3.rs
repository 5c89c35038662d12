//! The third mission: follow a line on the floor.

pub mod commands;
pub mod drone_state;
pub mod transitions;
