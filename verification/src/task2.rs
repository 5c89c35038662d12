//! The second mission: find the way through a maze of rooms, led by the
//! markers on its floors and beside its apertures, and land at its end.

pub mod commands;
pub mod drone_state;
pub mod events;
pub mod transitions;
