//! The states of the first mission.

use vstd::prelude::*;
use vstd::string::StringExecFns;
use crate::msgs::DroneStatus;

verus! {

/// On the ground, before the mission.
#[derive(Clone, Copy, Debug, PartialEq, Eq, Structural)]
pub struct WaitingForCommand {}

/// Coming down.
#[derive(Clone, Copy, Debug, PartialEq, Eq, Structural)]
pub struct Landing {}

/// On the way through the entry.
#[derive(Clone, Copy, Debug, PartialEq, Eq, Structural)]
pub struct FlyingInside {}

/// Inside, looking for cubes.
#[derive(Clone, Copy, Debug, PartialEq, Eq, Structural)]
pub struct Exploring {}

/// On the way back to where the mission started.
#[derive(Clone, Copy, Debug, PartialEq, Eq, Structural)]
pub struct ReturningToStartPoint {}

/// In the air, looking for the entry of the building.
#[derive(Clone, Copy, Debug, PartialEq, Eq, Structural)]
pub struct LookingForEntry {}

/// The state of the first mission. `Error` is entered by an event that the
/// state at hand has no transition for, and is never left.
#[derive(Clone, Copy, Debug, PartialEq, Eq, Structural)]
pub enum DroneState {
    Error,
    WaitingForCommand(WaitingForCommand),
    Landing(Landing),
    FlyingInside(FlyingInside),
    Exploring(Exploring),
    ReturningToStartPoint(ReturningToStartPoint),
    LookingForEntry(LookingForEntry),
}

impl DroneState {
    /// The state after a wrong transition.
    pub fn error() -> (state: DroneState)
        ensures
            state == DroneState::Error,
    {
        DroneState::Error
    }

    /// The state `WaitingForCommand`.
    pub fn waiting_for_command() -> (state: DroneState)
        ensures
            state == DroneState::WaitingForCommand(WaitingForCommand {  }),
    {
        DroneState::WaitingForCommand(WaitingForCommand {  })
    }

    /// The state `Landing`.
    pub fn landing() -> (state: DroneState)
        ensures
            state == DroneState::Landing(Landing {  }),
    {
        DroneState::Landing(Landing {  })
    }

    /// The state `FlyingInside`.
    pub fn flying_inside() -> (state: DroneState)
        ensures
            state == DroneState::FlyingInside(FlyingInside {  }),
    {
        DroneState::FlyingInside(FlyingInside {  })
    }

    /// The state `Exploring`.
    pub fn exploring() -> (state: DroneState)
        ensures
            state == DroneState::Exploring(Exploring {  }),
    {
        DroneState::Exploring(Exploring {  })
    }

    /// The state `ReturningToStartPoint`.
    pub fn returning_to_start_point() -> (state: DroneState)
        ensures
            state == DroneState::ReturningToStartPoint(ReturningToStartPoint {  }),
    {
        DroneState::ReturningToStartPoint(ReturningToStartPoint {  })
    }

    /// The state `LookingForEntry`.
    pub fn looking_for_entry() -> (state: DroneState)
        ensures
            state == DroneState::LookingForEntry(LookingForEntry {  }),
    {
        DroneState::LookingForEntry(LookingForEntry {  })
    }

    /// What an observer is told of the state.
    pub open spec fn description(self) -> Seq<char> {
        match self {
            DroneState::Error => "Drone state is invalid due to wrong transition!"@,
            DroneState::WaitingForCommand(_) => "Drone is waiting for commands..."@,
            DroneState::Landing(_) => "Drone is landing..."@,
            DroneState::FlyingInside(_) => "Drone is flying into the building to start exploring..."@,
            DroneState::Exploring(_) => "Drone is exploring..."@,
            DroneState::ReturningToStartPoint(_) => "Drone is returning to the start point..."@,
            DroneState::LookingForEntry(_) => "Drone is looking for entry to building..."@,
        }
    }

    /// What to tell an observer of the state: its description, marked as an
    /// error exactly for `Error`.
    pub fn status(&self) -> (status: DroneStatus)
        ensures
            status.state@ == self.description(),
            status.is_error == (self is Error),
    {
        let state = match self {
            DroneState::Error => "Drone state is invalid due to wrong transition!",
            DroneState::WaitingForCommand(_) => "Drone is waiting for commands...",
            DroneState::Landing(_) => "Drone is landing...",
            DroneState::FlyingInside(_) => "Drone is flying into the building to start exploring...",
            DroneState::Exploring(_) => "Drone is exploring...",
            DroneState::ReturningToStartPoint(_) => "Drone is returning to the start point...",
            DroneState::LookingForEntry(_) => "Drone is looking for entry to building...",
        };
        let is_error = match self {
            DroneState::Error => true,
            _ => false,
        };
        DroneStatus { state: String::from_str(state), is_error }
    }
}

/// The state that the mission is in.
pub fn get_drone_state(current: &DroneState) -> (state: DroneState)
    ensures
        state == *current,
{
    *current
}

/// Puts the mission into `drone_state`, and says what to tell an observer: the
/// description of the new state, marked as an error exactly for `Error`.
pub fn set_drone_state(current: &mut DroneState, drone_state: DroneState) -> (status: DroneStatus)
    ensures
        *final(current) == drone_state,
        status.state@ == drone_state.description(),
        status.is_error == (drone_state is Error),
{
    *current = drone_state;
    drone_state.status()
}

} // verus!
