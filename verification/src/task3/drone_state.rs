//! The states of the third mission.

use vstd::prelude::*;
use vstd::string::StringExecFns;
use crate::msgs::DroneStatus;

verus! {

/// On the ground, before the mission.
#[derive(Clone, Copy, Debug, PartialEq, Eq, Structural)]
pub struct WaitingForCommand {}

/// In the air, steering along the line.
#[derive(Clone, Copy, Debug, PartialEq, Eq, Structural)]
pub struct FollowingLine {}

/// The state of the third mission. `Error` is entered by an event that the
/// state at hand has no transition for, and is never left.
#[derive(Clone, Copy, Debug, PartialEq, Eq, Structural)]
pub enum Task3DroneState {
    Error,
    WaitingForCommand(WaitingForCommand),
    FollowingLine(FollowingLine),
}

impl Task3DroneState {
    /// The state after a wrong transition.
    pub fn error() -> (state: Task3DroneState)
        ensures
            state == Task3DroneState::Error,
    {
        Task3DroneState::Error
    }

    /// The state `WaitingForCommand`.
    pub fn waiting_for_command() -> (state: Task3DroneState)
        ensures
            state == Task3DroneState::WaitingForCommand(WaitingForCommand {  }),
    {
        Task3DroneState::WaitingForCommand(WaitingForCommand {  })
    }

    /// The state `FollowingLine`.
    pub fn following_line() -> (state: Task3DroneState)
        ensures
            state == Task3DroneState::FollowingLine(FollowingLine {  }),
    {
        Task3DroneState::FollowingLine(FollowingLine {  })
    }

    /// What an observer is told of the state.
    pub open spec fn description(self) -> Seq<char> {
        match self {
            Task3DroneState::Error => "Drone state is invalid due to wrong transition!"@,
            Task3DroneState::WaitingForCommand(_) => "Drone is waiting for commands..."@,
            Task3DroneState::FollowingLine(_) => "Drone is following line..."@,
        }
    }

    /// What to tell an observer of the state: its description, marked as an
    /// error exactly for `Error`.
    pub fn status(&self) -> (status: DroneStatus)
        ensures
            status.state@ == self.description(),
            status.is_error == (self is Error),
    {
        let state = match self {
            Task3DroneState::Error => "Drone state is invalid due to wrong transition!",
            Task3DroneState::WaitingForCommand(_) => "Drone is waiting for commands...",
            Task3DroneState::FollowingLine(_) => "Drone is following line...",
        };
        let is_error = match self {
            Task3DroneState::Error => true,
            _ => false,
        };
        DroneStatus { state: String::from_str(state), is_error }
    }
}

/// Puts the mission into `state`, and says what to tell an observer: the
/// description of the new state, marked as an error exactly for `Error`.
pub fn set_drone_state(
    current: &mut Task3DroneState,
    state: Task3DroneState,
) -> (status: DroneStatus)
    ensures
        *final(current) == state,
        status.state@ == state.description(),
        status.is_error == (state is Error),
{
    *current = state;
    state.status()
}

/// The state that the mission is in.
pub fn get_drone_state(current: &Task3DroneState) -> (state: Task3DroneState)
    ensures
        state == *current,
{
    *current
}

} // verus!
