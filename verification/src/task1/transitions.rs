//! The transitions of the first mission and what each of them asks for.

use vstd::prelude::*;
use crate::actions::{Action, Arrival, Routine, Task};
use crate::events::Failure;
use crate::geometry::default_facing;
use crate::msgs::{DetectedObject, DroneStatus, Point, Vector3, Waypoint, AXIS_UNIT};
use crate::service_clients::{
    cancel_all_goals, disable_virtual_walls, land, objects_after, pause_exploration, sort_by_id,
    sorted_by_id, stop_spinning, ServiceRequest,
};
use crate::task1::commands::Start;
use crate::task1::drone_state::{
    get_drone_state, set_drone_state, DroneState, Exploring, FlyingInside, Landing,
    LookingForEntry, ReturningToStartPoint, WaitingForCommand,
};
use crate::task1::events::{EntryFound, FlewInsideBuilding, FlewNearStartPoint, FoundAllCubes};

verus! {

/// Everything that can be put to the first mission.
#[derive(Clone, Copy, Debug, PartialEq, Eq, Structural)]
pub enum DroneStateMessages {
    Start(Start),
    EntryFound(EntryFound),
    FlewInsideBuilding(FlewInsideBuilding),
    FoundAllCubes(FoundAllCubes),
    FlewNearStartPoint(FlewNearStartPoint),
    Failure(Failure),
}

/// What is asked for on beginning to look for the entry.
pub open spec fn looking_for_entry_actions() -> Seq<Action> {
    seq![Action::Start(Task::LookForEntry), Action::Start(Task::Run(Routine::Takeoff))]
}

/// What is asked for on beginning to fly in through `entry`.
pub open spec fn flying_inside_actions(entry: DetectedObject) -> Seq<Action> {
    seq![
        Action::Call(ServiceRequest::CancelAllGoals),
        Action::FlyToEntry { hole: entry },
        Action::Start(Task::WatchTransit { hole: entry, qr_index: None }),
    ]
}

/// What is asked for on beginning to explore.
pub open spec fn exploring_actions() -> Seq<Action> {
    seq![Action::Start(Task::Run(Routine::Survey))]
}

/// Where the mission started, faced as at the start.
pub open spec fn start_point() -> Waypoint {
    Waypoint { position: Point { x: 0, y: 0, z: 0 }, facing: default_facing() }
}

/// What is asked for on beginning to return.
pub open spec fn returning_actions() -> Seq<Action> {
    seq![
        Action::Call(ServiceRequest::SetAreWallsEnabled { data: false }),
        Action::Call(ServiceRequest::CancelAllGoals),
        Action::Call(ServiceRequest::StopSpin),
        Action::FlyTo { goal: start_point(), arrival: Arrival::StartPoint },
    ]
}

/// What is asked for on beginning to land.
pub open spec fn landing_actions() -> Seq<Action> {
    seq![Action::Call(ServiceRequest::Takeoff { height: 0, land: true })]
}

/// What is asked for on leaving the exploration.
pub open spec fn leaving_exploration_actions() -> Seq<Action> {
    seq![Action::Call(ServiceRequest::UseFuel { data: false })] + returning_actions()
}

/// What is asked for when the mission starts.
pub open spec fn starting_actions() -> Seq<Action> {
    seq![Action::ReportStarted, Action::Start(Task::WatchCubes)] + looking_for_entry_actions()
}

impl DroneState {
    /// The table of the first mission: the state that `message` leads to
    /// from this state. A pair that the table does not hold leads to
    /// `Error`.
    pub open spec fn next(self, message: DroneStateMessages) -> DroneState {
        match (self, message) {
            (
                DroneState::WaitingForCommand(_),
                DroneStateMessages::Start(_),
            ) => DroneState::LookingForEntry(LookingForEntry {  }),
            (
                DroneState::LookingForEntry(_),
                DroneStateMessages::EntryFound(_),
            ) => DroneState::FlyingInside(FlyingInside {  }),
            (
                DroneState::FlyingInside(_),
                DroneStateMessages::FlewInsideBuilding(_),
            ) => DroneState::Exploring(Exploring {  }),
            (
                DroneState::Exploring(_),
                DroneStateMessages::FoundAllCubes(_),
            ) => DroneState::ReturningToStartPoint(ReturningToStartPoint {  }),
            (
                DroneState::ReturningToStartPoint(_),
                DroneStateMessages::FlewNearStartPoint(_),
            ) => DroneState::Landing(Landing {  }),
            (
                DroneState::WaitingForCommand(_),
                DroneStateMessages::Failure(_),
            ) => DroneState::Landing(Landing {  }),
            (DroneState::LookingForEntry(_), DroneStateMessages::Failure(_)) => DroneState::Landing(
                Landing {  },
            ),
            (
                DroneState::FlyingInside(_),
                DroneStateMessages::Failure(_),
            ) => DroneState::ReturningToStartPoint(ReturningToStartPoint {  }),
            (
                DroneState::Exploring(_),
                DroneStateMessages::Failure(_),
            ) => DroneState::ReturningToStartPoint(ReturningToStartPoint {  }),
            (
                DroneState::ReturningToStartPoint(_),
                DroneStateMessages::Failure(_),
            ) => DroneState::ReturningToStartPoint(ReturningToStartPoint {  }),
            (DroneState::Landing(_), DroneStateMessages::Failure(_)) => DroneState::Landing(
                Landing {  },
            ),
            _ => DroneState::Error,
        }
    }

    /// What `message` asks for in this state, in the order in which it is to
    /// be done. A transition into `Error` asks for nothing, and neither does
    /// a failure that leaves the state as it is.
    pub open spec fn actions(self, message: DroneStateMessages) -> Seq<Action> {
        match (self, message) {
            (DroneState::WaitingForCommand(_), DroneStateMessages::Start(_)) => starting_actions(),
            (
                DroneState::LookingForEntry(_),
                DroneStateMessages::EntryFound(entry_found),
            ) => flying_inside_actions(entry_found.entry),
            (
                DroneState::FlyingInside(_),
                DroneStateMessages::FlewInsideBuilding(_),
            ) => exploring_actions(),
            (
                DroneState::Exploring(_),
                DroneStateMessages::FoundAllCubes(_),
            ) => leaving_exploration_actions(),
            (
                DroneState::ReturningToStartPoint(_),
                DroneStateMessages::FlewNearStartPoint(_),
            ) => landing_actions(),
            (DroneState::WaitingForCommand(_), DroneStateMessages::Failure(_)) => landing_actions(),
            (DroneState::LookingForEntry(_), DroneStateMessages::Failure(_)) => landing_actions(),
            (DroneState::FlyingInside(_), DroneStateMessages::Failure(_)) => returning_actions(),
            (
                DroneState::Exploring(_),
                DroneStateMessages::Failure(_),
            ) => leaving_exploration_actions(),
            _ => Seq::empty(),
        }
    }

    /// Puts the command to begin to the mission.
    pub fn on_start(self, input: Start) -> (step: (DroneState, Vec<Action>))
        ensures
            step.0 == self.next(DroneStateMessages::Start(input)),
            step.1@ == self.actions(DroneStateMessages::Start(input)),
    {
        match self {
            DroneState::WaitingForCommand(state) => {
                let (next, actions) = state.on_start(input);
                (DroneState::LookingForEntry(next), actions)
            },
            _ => (DroneState::Error, Vec::new()),
        }
    }

    /// Tells the mission that the entry is found.
    pub fn on_entry_found(self, input: EntryFound) -> (step: (DroneState, Vec<Action>))
        ensures
            step.0 == self.next(DroneStateMessages::EntryFound(input)),
            step.1@ == self.actions(DroneStateMessages::EntryFound(input)),
    {
        match self {
            DroneState::LookingForEntry(state) => {
                let (next, actions) = state.on_entry_found(input);
                (DroneState::FlyingInside(next), actions)
            },
            _ => (DroneState::Error, Vec::new()),
        }
    }

    /// Tells the mission that the vehicle is inside the building.
    pub fn on_flew_inside_building(
        self,
        input: FlewInsideBuilding,
    ) -> (step: (DroneState, Vec<Action>))
        ensures
            step.0 == self.next(DroneStateMessages::FlewInsideBuilding(input)),
            step.1@ == self.actions(DroneStateMessages::FlewInsideBuilding(input)),
    {
        match self {
            DroneState::FlyingInside(state) => {
                let (next, actions) = state.on_flew_inside_building(input);
                (DroneState::Exploring(next), actions)
            },
            _ => (DroneState::Error, Vec::new()),
        }
    }

    /// Tells the mission that every cube is found.
    pub fn on_found_all_cubes(self, input: FoundAllCubes) -> (step: (DroneState, Vec<Action>))
        ensures
            step.0 == self.next(DroneStateMessages::FoundAllCubes(input)),
            step.1@ == self.actions(DroneStateMessages::FoundAllCubes(input)),
    {
        match self {
            DroneState::Exploring(state) => {
                let (next, actions) = state.on_found_all_cubes(input);
                (DroneState::ReturningToStartPoint(next), actions)
            },
            _ => (DroneState::Error, Vec::new()),
        }
    }

    /// Tells the mission that the vehicle is back where it started.
    pub fn on_flew_near_start_point(
        self,
        input: FlewNearStartPoint,
    ) -> (step: (DroneState, Vec<Action>))
        ensures
            step.0 == self.next(DroneStateMessages::FlewNearStartPoint(input)),
            step.1@ == self.actions(DroneStateMessages::FlewNearStartPoint(input)),
    {
        match self {
            DroneState::ReturningToStartPoint(state) => {
                let (next, actions) = state.on_flew_near_start_point(input);
                (DroneState::Landing(next), actions)
            },
            _ => (DroneState::Error, Vec::new()),
        }
    }

    /// Tells the mission of a failure.
    pub fn on_failure(self, input: Failure) -> (step: (DroneState, Vec<Action>))
        ensures
            step.0 == self.next(DroneStateMessages::Failure(input)),
            step.1@ == self.actions(DroneStateMessages::Failure(input)),
    {
        match self {
            DroneState::WaitingForCommand(state) => {
                let (next, actions) = state.on_failure(input);
                (DroneState::Landing(next), actions)
            },
            DroneState::LookingForEntry(state) => {
                let (next, actions) = state.on_failure(input);
                (DroneState::Landing(next), actions)
            },
            DroneState::FlyingInside(state) => {
                let (next, actions) = state.on_failure(input);
                (DroneState::ReturningToStartPoint(next), actions)
            },
            DroneState::Exploring(state) => {
                let (next, actions) = state.on_failure(input);
                (DroneState::ReturningToStartPoint(next), actions)
            },
            DroneState::ReturningToStartPoint(state) => {
                let (next, actions) = state.on_failure(input);
                (DroneState::ReturningToStartPoint(next), actions)
            },
            DroneState::Landing(state) => {
                let (next, actions) = state.on_failure(input);
                (DroneState::Landing(next), actions)
            },
            _ => (DroneState::Error, Vec::new()),
        }
    }

    /// Puts `input` to the mission: the state that the table names, and what
    /// the transition asks for.
    pub fn execute(self, input: DroneStateMessages) -> (step: (DroneState, Vec<Action>))
        ensures
            step.0 == self.next(input),
            step.1@ == self.actions(input),
    {
        match input {
            DroneStateMessages::Start(message) => self.on_start(message),
            DroneStateMessages::EntryFound(message) => self.on_entry_found(message),
            DroneStateMessages::FlewInsideBuilding(message) => self.on_flew_inside_building(message),
            DroneStateMessages::FoundAllCubes(message) => self.on_found_all_cubes(message),
            DroneStateMessages::FlewNearStartPoint(message) => self.on_flew_near_start_point(
                message,
            ),
            DroneStateMessages::Failure(message) => self.on_failure(message),
        }
    }
}

impl WaitingForCommand {
    /// The command to begin.
    pub fn on_start(self, command: Start) -> (step: (LookingForEntry, Vec<Action>))
        ensures
            step.1@ == starting_actions(),
    {
        let mut actions: Vec<Action> = Vec::new();
        actions.push(Action::ReportStarted);
        actions.push(Action::Start(Task::WatchCubes));
        let (next, mut more) = LookingForEntry::new();
        actions.append(&mut more);
        (next, actions)
    }

    /// A failure.
    pub fn on_failure(self, failure: Failure) -> (step: (Landing, Vec<Action>))
        ensures
            step.1@ == landing_actions(),
    {
        Landing::new()
    }
}

impl LookingForEntry {
    /// Enters the state.
    pub fn new() -> (step: (LookingForEntry, Vec<Action>))
        ensures
            step.1@ == looking_for_entry_actions(),
    {
        let mut actions: Vec<Action> = Vec::new();
        actions.push(Action::Start(Task::LookForEntry));
        actions.push(Action::Start(Task::Run(Routine::Takeoff)));
        (LookingForEntry {  }, actions)
    }

    /// The entry is found.
    pub fn on_entry_found(self, entry_found: EntryFound) -> (step: (FlyingInside, Vec<Action>))
        ensures
            step.1@ == flying_inside_actions(entry_found.entry),
    {
        FlyingInside::new(entry_found.entry)
    }

    /// A failure.
    pub fn on_failure(self, failure: Failure) -> (step: (Landing, Vec<Action>))
        ensures
            step.1@ == landing_actions(),
    {
        Landing::new()
    }
}

impl Exploring {
    /// Enters the state.
    pub fn new() -> (step: (Exploring, Vec<Action>))
        ensures
            step.1@ == exploring_actions(),
    {
        let mut actions: Vec<Action> = Vec::new();
        actions.push(Action::Start(Task::Run(Routine::Survey)));
        (Exploring {  }, actions)
    }

    /// Every cube is found.
    pub fn on_found_all_cubes(
        self,
        event: FoundAllCubes,
    ) -> (step: (ReturningToStartPoint, Vec<Action>))
        ensures
            step.1@ == leaving_exploration_actions(),
    {
        let mut actions: Vec<Action> = Vec::new();
        actions.push(Action::Call(pause_exploration()));
        let (next, mut more) = ReturningToStartPoint::new();
        actions.append(&mut more);
        (next, actions)
    }

    /// A failure.
    pub fn on_failure(self, failure: Failure) -> (step: (ReturningToStartPoint, Vec<Action>))
        ensures
            step.1@ == leaving_exploration_actions(),
    {
        let mut actions: Vec<Action> = Vec::new();
        actions.push(Action::Call(pause_exploration()));
        let (next, mut more) = ReturningToStartPoint::new();
        actions.append(&mut more);
        (next, actions)
    }
}

impl FlyingInside {
    /// Enters the state.
    pub fn new(entry: DetectedObject) -> (step: (FlyingInside, Vec<Action>))
        ensures
            step.1@ == flying_inside_actions(entry),
    {
        let mut actions: Vec<Action> = Vec::new();
        actions.push(Action::Call(cancel_all_goals()));
        actions.push(Action::FlyToEntry { hole: entry });
        actions.push(Action::Start(Task::WatchTransit { hole: entry, qr_index: None }));
        (FlyingInside {  }, actions)
    }

    /// The vehicle is inside the building.
    pub fn on_flew_inside_building(
        self,
        event: FlewInsideBuilding,
    ) -> (step: (Exploring, Vec<Action>))
        ensures
            step.1@ == exploring_actions(),
    {
        Exploring::new()
    }

    /// A failure.
    pub fn on_failure(self, failure: Failure) -> (step: (ReturningToStartPoint, Vec<Action>))
        ensures
            step.1@ == returning_actions(),
    {
        ReturningToStartPoint::new()
    }
}

impl ReturningToStartPoint {
    /// Enters the state.
    pub fn new() -> (step: (ReturningToStartPoint, Vec<Action>))
        ensures
            step.1@ == returning_actions(),
    {
        let mut actions: Vec<Action> = Vec::new();
        actions.push(Action::Call(disable_virtual_walls()));
        actions.push(Action::Call(cancel_all_goals()));
        actions.push(Action::Call(stop_spinning()));
        actions.push(
            Action::FlyTo {
                goal: Waypoint {
                    position: Point { x: 0, y: 0, z: 0 },
                    facing: Vector3 { x: AXIS_UNIT, y: 0, z: 0 },
                },
                arrival: Arrival::StartPoint,
            },
        );
        (ReturningToStartPoint {  }, actions)
    }

    /// The vehicle is back where the mission started.
    pub fn on_flew_near_start_point(
        self,
        event: FlewNearStartPoint,
    ) -> (step: (Landing, Vec<Action>))
        ensures
            step.1@ == landing_actions(),
    {
        Landing::new()
    }

    /// A failure.
    pub fn on_failure(self, failure: Failure) -> (step: (ReturningToStartPoint, Vec<Action>))
        ensures
            step.0 == self,
            step.1@ == Seq::<Action>::empty(),
    {
        (self, Vec::new())
    }
}

impl Landing {
    /// Enters the state.
    pub fn new() -> (step: (Landing, Vec<Action>))
        ensures
            step.1@ == landing_actions(),
    {
        let mut actions: Vec<Action> = Vec::new();
        actions.push(Action::Call(land()));
        (Landing {  }, actions)
    }

    /// A failure.
    pub fn on_failure(self, failure: Failure) -> (step: (Landing, Vec<Action>))
        ensures
            step.0 == self,
            step.1@ == Seq::<Action>::empty(),
    {
        (self, Vec::new())
    }
}

/// Puts `message` to the mission whose state is `current`: the state becomes
/// what the table names. The result is what to tell an observer of the new
/// state, and what the transition asks for.
pub fn apply(
    current: &mut DroneState,
    message: DroneStateMessages,
) -> (step: (DroneStatus, Vec<Action>))
    ensures
        *final(current) == old(current).next(message),
        step.0.state@ == old(current).next(message).description(),
        step.0.is_error == (old(current).next(message) is Error),
        step.1@ == old(current).actions(message),
{
    let (next, actions) = get_drone_state(current).execute(message);
    let status = set_drone_state(current, next);
    (status, actions)
}

/// Takes in the cubes that perception reports: `cubes` comes to hold them in
/// the order of their identifiers. The positions to announce are those of
/// the cubes that stand behind as many cubes as were held before, in that
/// order.
pub fn take_new_cubes(
    cubes: &mut Vec<DetectedObject>,
    reported: &Vec<DetectedObject>,
) -> (positions: Vec<Point>)
    ensures
        final(cubes)@ == sorted_by_id(reported@),
        positions@ == if old(cubes).len() <= reported.len() {
            sorted_by_id(reported@).skip(old(cubes).len() as int).map_values(
                |cube: DetectedObject| cube.pose.position,
            )
        } else {
            Seq::empty()
        },
{
    let sorted = sort_by_id(reported);
    let news = objects_after(&sorted, cubes.len());
    let mut positions: Vec<Point> = Vec::new();
    let mut index: usize = 0;
    while index < news.len()
        invariant
            index <= news.len(),
            positions@ == news@.take(index as int).map_values(
                |cube: DetectedObject| cube.pose.position,
            ),
        decreases news.len() - index,
    {
        positions.push(news[index].pose.position);
        index += 1;
    }
    *cubes = sorted;
    positions
}

/// Once in `Error`, the mission stays there and asks for nothing; and a
/// failure leaves a landing mission landing.
pub proof fn lemma_error_and_landing_absorb(message: DroneStateMessages, failure: Failure)
    ensures
        DroneState::Error.next(message) == DroneState::Error,
        DroneState::Error.actions(message) == Seq::<Action>::empty(),
        DroneState::Landing(Landing {  }).next(DroneStateMessages::Failure(failure))
            == DroneState::Landing(Landing {  }),
{
}

/// A failure is accepted in every state but `Error`, and leads towards the
/// ground: to landing before the entry is found, to the return to the start
/// point afterwards, and a landing vehicle goes on landing.
pub proof fn lemma_failure_leads_home(state: DroneState, failure: Failure)
    ensures
        state !is Error ==> state.next(DroneStateMessages::Failure(failure)) !is Error,
        state is WaitingForCommand || state is LookingForEntry || state is Landing ==> state.next(
            DroneStateMessages::Failure(failure),
        ) is Landing,
        state is FlyingInside || state is Exploring || state is ReturningToStartPoint ==> state.next(
            DroneStateMessages::Failure(failure),
        ) is ReturningToStartPoint,
{
}

} // verus!
