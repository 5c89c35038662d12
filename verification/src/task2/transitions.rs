//! The transitions of the second mission, what each of them asks for, and
//! the watchers that raise its events.

use vstd::prelude::*;
use crate::actions::{Action, Arrival, Routine, Task};
use crate::events::{EventKind, EventLog, Failure};
use crate::geometry::{facing_or_default, get_orientation_towards_point};
use crate::msgs::{DetectedObject, DroneStatus, Point, Vector3, Waypoint};
use crate::service_clients::{
    cancel_all_goals, enable_virtual_walls, has_new_objects, land, objects_between,
    pause_exploration, sort_by_id, sorted_by_id, ServiceRequest,
};
use crate::task2::commands::Start;
use crate::task2::drone_state::{
    add_hole_qr_connection, already_detected, find_connected_hole, find_connected_qr,
    get_drone_state, hole_positions, is_qr_already_detected, match_hole_id_with_qr_on_floor,
    match_qr_index_with_hole, match_qr_index_with_passed_rooms, match_qr_index_with_qr_on_floor,
    nearest_index_within, qr_positions, set_drone_state, CorrelationStore, Exploring, FlyingIntoHole,
    FlyingToLandingPoint, Landing, Qr, Task2DroneState, WaitingForCommand,
};
use crate::task2::events::{FlewNearLandingPoint, FlewThroughHole, HoleFound, QrFound};

verus! {

/// Everything that can be put to the second mission.
#[derive(Clone, Debug, PartialEq, Eq)]
pub enum Task2DroneStateMessages {
    Start(Start),
    QrFound(QrFound),
    HoleFound(HoleFound),
    FlewThroughHole(FlewThroughHole),
    FlewNearLandingPoint(FlewNearLandingPoint),
    Failure(Failure),
}

/// What is asked for on beginning to explore the first room.
pub open spec fn start_exploring_actions() -> Seq<Action> {
    seq![Action::Start(Task::Run(Routine::StartExploring))]
}

/// What is asked for on beginning to explore a further room.
pub open spec fn go_on_exploring_actions() -> Seq<Action> {
    seq![
        Action::Call(ServiceRequest::SetAreWallsEnabled { data: true }),
        Action::Start(Task::Run(Routine::GoOnExploring)),
    ]
}

/// What is asked for when the mission starts.
pub open spec fn starting_actions() -> Seq<Action> {
    seq![Action::ReportStarted, Action::Start(Task::WatchQrCodes), Action::Start(Task::WatchHoles)]
        + start_exploring_actions()
}

/// What is asked for on beginning to fly through `hole`, to which the marker
/// `qr_index` has led.
pub open spec fn flying_into_hole_actions(hole: DetectedObject, qr_index: usize) -> Seq<Action> {
    seq![
        Action::Call(ServiceRequest::CancelAllGoals),
        Action::Call(ServiceRequest::UseFuel { data: false }),
        Action::FlyToEntry { hole },
        Action::Start(Task::WatchTransit { hole, qr_index: Some(qr_index) }),
    ]
}

/// What is asked for on beginning to fly to `landing_point`: the vehicle is
/// to arrive facing away from the origin of the map.
pub open spec fn flying_to_landing_point_actions(landing_point: Point) -> Seq<Action> {
    seq![
        Action::Call(ServiceRequest::CancelAllGoals),
        Action::FlyTo {
            goal: Waypoint {
                position: landing_point,
                facing: facing_or_default(
                    Vector3 { x: landing_point.x, y: landing_point.y, z: landing_point.z },
                ),
            },
            arrival: Arrival::LandingPoint,
        },
    ]
}

/// What is asked for on beginning to land.
pub open spec fn landing_actions() -> Seq<Action> {
    seq![
        Action::Call(ServiceRequest::CancelAllGoals),
        Action::Call(ServiceRequest::Takeoff { height: 0, land: true }),
    ]
}

/// Where a newly read marker leads an exploring vehicle. A marker on the
/// floor leads through its own aperture, if it has one; else, if it says what
/// the rooms passed so far say, to itself, to land there; else nowhere. A
/// marker on a wall leads through the aperture of the first floor marker
/// that says the same, if there is such a marker and it has an aperture.
pub open spec fn exploring_after_qr(
    store: CorrelationStore,
    qr_found: QrFound,
) -> (Task2DroneState, Seq<Action>) {
    let staying = (Task2DroneState::Exploring(Exploring {  }), Seq::<Action>::empty());
    if qr_found.qr.is_on_floor {
        match store.hole_of_qr(qr_found.index) {
            Some(hole) => (
                Task2DroneState::FlyingIntoHole(FlyingIntoHole {  }),
                flying_into_hole_actions(hole, qr_found.index),
            ),
            None => if store.names_passed_rooms(qr_found.index as int) {
                (
                    Task2DroneState::FlyingToLandingPoint(FlyingToLandingPoint {  }),
                    flying_to_landing_point_actions(
                        store.detected_qr_codes@[qr_found.index as int].position,
                    ),
                )
            } else {
                staying
            },
        }
    } else {
        match store.floor_qr_like(qr_found.index as int) {
            Some(hole_qr_index) => match store.hole_of_qr(hole_qr_index as usize) {
                Some(hole) => (
                    Task2DroneState::FlyingIntoHole(FlyingIntoHole {  }),
                    flying_into_hole_actions(hole, hole_qr_index as usize),
                ),
                None => staying,
            },
            None => staying,
        }
    }
}

/// Where a newly found aperture leads an exploring vehicle: through itself,
/// if a marker on the floor says what the marker of the aperture says, and
/// nowhere otherwise.
pub open spec fn exploring_after_hole(
    store: CorrelationStore,
    hole_found: HoleFound,
) -> (Task2DroneState, Seq<Action>) {
    match store.floor_qr_of_hole(hole_found.hole.id) {
        Some(qr_index) => (
            Task2DroneState::FlyingIntoHole(FlyingIntoHole {  }),
            flying_into_hole_actions(hole_found.hole, qr_index as usize),
        ),
        None => (Task2DroneState::Exploring(Exploring {  }), Seq::<Action>::empty()),
    }
}

/// Whether `after` is the memory `before` once the vehicle has passed into
/// the next room by the marker `qr_index`: what that marker says, if there is
/// such a marker, is added to the labels of the rooms passed, and the
/// markers of the room left behind are forgotten with their connections.
pub open spec fn has_passed_room(
    before: CorrelationStore,
    after: CorrelationStore,
    qr_index: usize,
) -> bool {
    &&& after.options == before.options
    &&& after.detected_holes == before.detected_holes
    &&& after.detected_qr_codes@.len() == 0
    &&& after.detected_hole_qr_connections@ == Map::<usize, usize>::empty()
    &&& after.detected_qr_hole_connections@ == Map::<usize, usize>::empty()
    &&& after.passed_rooms_numbers@ == if qr_index < before.detected_qr_codes@.len() {
        before.passed_rooms_numbers@.push(before.detected_qr_codes@[qr_index as int].content)
    } else {
        before.passed_rooms_numbers@
    }
}

impl Task2DroneState {
    /// The state after the command to begin.
    pub open spec fn after_start(self) -> Task2DroneState {
        match self {
            Task2DroneState::WaitingForCommand(_) => Task2DroneState::Exploring(Exploring {  }),
            _ => Task2DroneState::Error,
        }
    }

    /// What the command to begin asks for.
    pub open spec fn actions_on_start(self) -> Seq<Action> {
        match self {
            Task2DroneState::WaitingForCommand(_) => starting_actions(),
            _ => Seq::empty(),
        }
    }

    /// The state after a marker has been read, with what the mission
    /// remembers in `store`. Only an exploring vehicle acts on it.
    pub open spec fn after_qr_found(
        self,
        qr_found: QrFound,
        store: CorrelationStore,
    ) -> Task2DroneState {
        match self {
            Task2DroneState::Error => Task2DroneState::Error,
            Task2DroneState::Exploring(_) => exploring_after_qr(store, qr_found).0,
            _ => self,
        }
    }

    /// What a marker that has been read asks for.
    pub open spec fn actions_on_qr_found(
        self,
        qr_found: QrFound,
        store: CorrelationStore,
    ) -> Seq<Action> {
        match self {
            Task2DroneState::Exploring(_) => exploring_after_qr(store, qr_found).1,
            _ => Seq::empty(),
        }
    }

    /// The state after an aperture has been found, with what the mission
    /// remembers in `store`. Only an exploring vehicle acts on it.
    pub open spec fn after_hole_found(
        self,
        hole_found: HoleFound,
        store: CorrelationStore,
    ) -> Task2DroneState {
        match self {
            Task2DroneState::Error => Task2DroneState::Error,
            Task2DroneState::Exploring(_) => exploring_after_hole(store, hole_found).0,
            _ => self,
        }
    }

    /// What an aperture that has been found asks for.
    pub open spec fn actions_on_hole_found(
        self,
        hole_found: HoleFound,
        store: CorrelationStore,
    ) -> Seq<Action> {
        match self {
            Task2DroneState::Exploring(_) => exploring_after_hole(store, hole_found).1,
            _ => Seq::empty(),
        }
    }

    /// The state after the transit through an aperture.
    pub open spec fn after_flew_through_hole(self) -> Task2DroneState {
        match self {
            Task2DroneState::FlyingIntoHole(_) => Task2DroneState::Exploring(Exploring {  }),
            _ => Task2DroneState::Error,
        }
    }

    /// What the transit through an aperture asks for.
    pub open spec fn actions_on_flew_through_hole(self) -> Seq<Action> {
        match self {
            Task2DroneState::FlyingIntoHole(_) => go_on_exploring_actions(),
            _ => Seq::empty(),
        }
    }

    /// The state after the arrival over the place to land on.
    pub open spec fn after_flew_near_landing_point(self) -> Task2DroneState {
        match self {
            Task2DroneState::FlyingToLandingPoint(_) => Task2DroneState::Landing(Landing {  }),
            _ => Task2DroneState::Error,
        }
    }

    /// What the arrival over the place to land on asks for.
    pub open spec fn actions_on_flew_near_landing_point(self) -> Seq<Action> {
        match self {
            Task2DroneState::FlyingToLandingPoint(_) => landing_actions(),
            _ => Seq::empty(),
        }
    }

    /// The state after a failure: a vehicle that explores or flies through
    /// an aperture lands, one that flies to the place to land on flies on,
    /// and one that lands goes on landing.
    pub open spec fn after_failure(self) -> Task2DroneState {
        match self {
            Task2DroneState::Exploring(_) => Task2DroneState::Landing(Landing {  }),
            Task2DroneState::FlyingIntoHole(_) => Task2DroneState::Landing(Landing {  }),
            Task2DroneState::FlyingToLandingPoint(_) => self,
            Task2DroneState::Landing(_) => self,
            _ => Task2DroneState::Error,
        }
    }

    /// What a failure asks for.
    pub open spec fn actions_on_failure(self) -> Seq<Action> {
        match self {
            Task2DroneState::Exploring(_) => landing_actions(),
            Task2DroneState::FlyingIntoHole(_) => landing_actions(),
            _ => Seq::empty(),
        }
    }

    /// The table of the second mission: the state that `message` leads to
    /// from this state, with what the mission remembers in `store`. A pair
    /// that the table does not hold leads to `Error`.
    pub open spec fn next(
        self,
        message: Task2DroneStateMessages,
        store: CorrelationStore,
    ) -> Task2DroneState {
        match message {
            Task2DroneStateMessages::Start(_) => self.after_start(),
            Task2DroneStateMessages::QrFound(qr_found) => self.after_qr_found(qr_found, store),
            Task2DroneStateMessages::HoleFound(hole_found) => self.after_hole_found(
                hole_found,
                store,
            ),
            Task2DroneStateMessages::FlewThroughHole(_) => self.after_flew_through_hole(),
            Task2DroneStateMessages::FlewNearLandingPoint(_) => self.after_flew_near_landing_point(),
            Task2DroneStateMessages::Failure(_) => self.after_failure(),
        }
    }

    /// What `message` asks for in this state, in the order in which it is to
    /// be done. A transition into `Error` asks for nothing, and neither does
    /// one that leaves the state as it is.
    pub open spec fn actions(
        self,
        message: Task2DroneStateMessages,
        store: CorrelationStore,
    ) -> Seq<Action> {
        match message {
            Task2DroneStateMessages::Start(_) => self.actions_on_start(),
            Task2DroneStateMessages::QrFound(qr_found) => self.actions_on_qr_found(qr_found, store),
            Task2DroneStateMessages::HoleFound(hole_found) => self.actions_on_hole_found(
                hole_found,
                store,
            ),
            Task2DroneStateMessages::FlewThroughHole(_) => self.actions_on_flew_through_hole(),
            Task2DroneStateMessages::FlewNearLandingPoint(
                _,
            ) => self.actions_on_flew_near_landing_point(),
            Task2DroneStateMessages::Failure(_) => self.actions_on_failure(),
        }
    }

    /// Whether `after` is what the mission remembers once `message` has been
    /// put to it in this state, where it remembered `before`. Only the
    /// transit through an aperture changes what is remembered.
    pub open spec fn remembers(
        self,
        message: Task2DroneStateMessages,
        before: CorrelationStore,
        after: CorrelationStore,
    ) -> bool {
        match (self, message) {
            (
                Task2DroneState::FlyingIntoHole(_),
                Task2DroneStateMessages::FlewThroughHole(flew_through_hole),
            ) => has_passed_room(before, after, flew_through_hole.qr_index),
            _ => after == before,
        }
    }

    /// Puts the command to begin to the mission.
    pub fn on_start(self, input: Start) -> (step: (Task2DroneState, Vec<Action>))
        ensures
            step.0 == self.after_start(),
            step.1@ == self.actions_on_start(),
    {
        match self {
            Task2DroneState::WaitingForCommand(state) => {
                let (next, actions) = state.on_start(input);
                (Task2DroneState::Exploring(next), actions)
            },
            _ => (Task2DroneState::Error, Vec::new()),
        }
    }

    /// Tells the mission of a newly read marker.
    pub fn on_qr_found(
        self,
        input: QrFound,
        store: &CorrelationStore,
    ) -> (step: (Task2DroneState, Vec<Action>))
        ensures
            step.0 == self.after_qr_found(input, *store),
            step.1@ == self.actions_on_qr_found(input, *store),
    {
        match self {
            Task2DroneState::WaitingForCommand(state) => (
                Task2DroneState::WaitingForCommand(state.on_qr_found(input)),
                Vec::new(),
            ),
            Task2DroneState::Exploring(state) => state.on_qr_found(input, store),
            Task2DroneState::FlyingIntoHole(state) => (
                Task2DroneState::FlyingIntoHole(state.on_qr_found(input)),
                Vec::new(),
            ),
            Task2DroneState::FlyingToLandingPoint(state) => (
                Task2DroneState::FlyingToLandingPoint(state.on_qr_found(input)),
                Vec::new(),
            ),
            Task2DroneState::Landing(state) => (
                Task2DroneState::Landing(state.on_qr_found(input)),
                Vec::new(),
            ),
            _ => (Task2DroneState::Error, Vec::new()),
        }
    }

    /// Tells the mission of a newly found aperture.
    pub fn on_hole_found(
        self,
        input: HoleFound,
        store: &CorrelationStore,
    ) -> (step: (Task2DroneState, Vec<Action>))
        ensures
            step.0 == self.after_hole_found(input, *store),
            step.1@ == self.actions_on_hole_found(input, *store),
    {
        match self {
            Task2DroneState::WaitingForCommand(state) => (
                Task2DroneState::WaitingForCommand(state.on_hole_found(input)),
                Vec::new(),
            ),
            Task2DroneState::Exploring(state) => state.on_hole_found(input, store),
            Task2DroneState::FlyingIntoHole(state) => (
                Task2DroneState::FlyingIntoHole(state.on_hole_found(input)),
                Vec::new(),
            ),
            Task2DroneState::FlyingToLandingPoint(state) => (
                Task2DroneState::FlyingToLandingPoint(state.on_hole_found(input)),
                Vec::new(),
            ),
            Task2DroneState::Landing(state) => (
                Task2DroneState::Landing(state.on_hole_found(input)),
                Vec::new(),
            ),
            _ => (Task2DroneState::Error, Vec::new()),
        }
    }

    /// Tells the mission that the vehicle has flown through an aperture.
    pub fn on_flew_through_hole(
        self,
        input: FlewThroughHole,
        store: &mut CorrelationStore,
    ) -> (step: (Task2DroneState, Vec<Action>))
        ensures
            step.0 == self.after_flew_through_hole(),
            step.1@ == self.actions_on_flew_through_hole(),
            self.remembers(Task2DroneStateMessages::FlewThroughHole(input), *old(store), *final(store)),
            old(store).well_formed() ==> final(store).well_formed(),
    {
        match self {
            Task2DroneState::FlyingIntoHole(state) => {
                let (next, actions) = state.on_flew_through_hole(input, store);
                (Task2DroneState::Exploring(next), actions)
            },
            _ => (Task2DroneState::Error, Vec::new()),
        }
    }

    /// Tells the mission that the vehicle is over the place to land on.
    pub fn on_flew_near_landing_point(
        self,
        input: FlewNearLandingPoint,
    ) -> (step: (Task2DroneState, Vec<Action>))
        ensures
            step.0 == self.after_flew_near_landing_point(),
            step.1@ == self.actions_on_flew_near_landing_point(),
    {
        match self {
            Task2DroneState::FlyingToLandingPoint(state) => {
                let (next, actions) = state.on_flew_near_landing_point(input);
                (Task2DroneState::Landing(next), actions)
            },
            _ => (Task2DroneState::Error, Vec::new()),
        }
    }

    /// Tells the mission of a failure.
    pub fn on_failure(self, input: Failure) -> (step: (Task2DroneState, Vec<Action>))
        ensures
            step.0 == self.after_failure(),
            step.1@ == self.actions_on_failure(),
    {
        match self {
            Task2DroneState::Exploring(state) => {
                let (next, actions) = state.on_failure(input);
                (Task2DroneState::Landing(next), actions)
            },
            Task2DroneState::FlyingIntoHole(state) => {
                let (next, actions) = state.on_failure(input);
                (Task2DroneState::Landing(next), actions)
            },
            Task2DroneState::FlyingToLandingPoint(state) => (
                Task2DroneState::FlyingToLandingPoint(state.on_failure(input)),
                Vec::new(),
            ),
            Task2DroneState::Landing(state) => (
                Task2DroneState::Landing(state.on_failure(input)),
                Vec::new(),
            ),
            _ => (Task2DroneState::Error, Vec::new()),
        }
    }

    /// Puts `input` to the mission: the state that the table names, what
    /// the transition asks for, and what the mission remembers afterwards.
    pub fn execute(
        self,
        input: Task2DroneStateMessages,
        store: &mut CorrelationStore,
    ) -> (step: (Task2DroneState, Vec<Action>))
        ensures
            step.0 == self.next(input, *old(store)),
            step.1@ == self.actions(input, *old(store)),
            self.remembers(input, *old(store), *final(store)),
            old(store).well_formed() ==> final(store).well_formed(),
    {
        match input {
            Task2DroneStateMessages::Start(message) => self.on_start(message),
            Task2DroneStateMessages::QrFound(message) => self.on_qr_found(message, store),
            Task2DroneStateMessages::HoleFound(message) => self.on_hole_found(message, store),
            Task2DroneStateMessages::FlewThroughHole(message) => self.on_flew_through_hole(
                message,
                store,
            ),
            Task2DroneStateMessages::FlewNearLandingPoint(
                message,
            ) => self.on_flew_near_landing_point(message),
            Task2DroneStateMessages::Failure(message) => self.on_failure(message),
        }
    }
}

impl WaitingForCommand {
    /// The command to begin.
    pub fn on_start(self, command: Start) -> (step: (Exploring, Vec<Action>))
        ensures
            step.1@ == starting_actions(),
    {
        let mut actions: Vec<Action> = Vec::new();
        actions.push(Action::ReportStarted);
        actions.push(Action::Start(Task::WatchQrCodes));
        actions.push(Action::Start(Task::WatchHoles));
        let (next, mut more) = Exploring::start();
        actions.append(&mut more);
        (next, actions)
    }

    /// A marker has been read.
    pub fn on_qr_found(self, qr_found: QrFound) -> (next: Self)
        ensures
            next == self,
    {
        self
    }

    /// An aperture has been found.
    pub fn on_hole_found(self, hole_found: HoleFound) -> (next: Self)
        ensures
            next == self,
    {
        self
    }
}

impl Exploring {
    /// Begins to explore the first room.
    pub fn start() -> (step: (Exploring, Vec<Action>))
        ensures
            step.1@ == start_exploring_actions(),
    {
        let mut actions: Vec<Action> = Vec::new();
        actions.push(Action::Start(Task::Run(Routine::StartExploring)));
        (Exploring {  }, actions)
    }

    /// Begins to explore the room that the marker `qr_index` has led into.
    pub fn go_on(store: &mut CorrelationStore, qr_index: usize) -> (step: (Exploring, Vec<Action>))
        ensures
            step.1@ == go_on_exploring_actions(),
            has_passed_room(*old(store), *final(store), qr_index),
            final(store).well_formed(),
    {
        if qr_index < store.detected_qr_codes.len() {
            let label = store.detected_qr_codes[qr_index].content.clone();
            store.passed_rooms_numbers.push(label);
        }
        store.detected_hole_qr_connections.clear();
        store.detected_qr_hole_connections.clear();
        store.detected_qr_codes.clear();
        let mut actions: Vec<Action> = Vec::new();
        actions.push(Action::Call(enable_virtual_walls()));
        actions.push(Action::Start(Task::Run(Routine::GoOnExploring)));
        (Exploring {  }, actions)
    }

    /// A marker has been read.
    pub fn on_qr_found(
        self,
        qr_found: QrFound,
        store: &CorrelationStore,
    ) -> (step: (Task2DroneState, Vec<Action>))
        ensures
            step.0 == exploring_after_qr(*store, qr_found).0,
            step.1@ == exploring_after_qr(*store, qr_found).1,
    {
        if qr_found.qr.is_on_floor {
            if let Some(hole) = match_qr_index_with_hole(store, qr_found.index) {
                let (next, actions) = FlyingIntoHole::new(hole, qr_found.index);
                return (Task2DroneState::FlyingIntoHole(next), actions);
            }
            if let Some(qr) = match_qr_index_with_passed_rooms(store, qr_found.index) {
                let (next, actions) = FlyingToLandingPoint::new(qr.position);
                return (Task2DroneState::FlyingToLandingPoint(next), actions);
            }
            return (Task2DroneState::Exploring(self), Vec::new());
        }
        if let Some(hole_qr_index) = match_qr_index_with_qr_on_floor(store, qr_found.index) {
            if let Some(hole) = match_qr_index_with_hole(store, hole_qr_index) {
                let (next, actions) = FlyingIntoHole::new(hole, hole_qr_index);
                return (Task2DroneState::FlyingIntoHole(next), actions);
            }
        }
        (Task2DroneState::Exploring(self), Vec::new())
    }

    /// An aperture has been found.
    pub fn on_hole_found(
        self,
        hole_found: HoleFound,
        store: &CorrelationStore,
    ) -> (step: (Task2DroneState, Vec<Action>))
        ensures
            step.0 == exploring_after_hole(*store, hole_found).0,
            step.1@ == exploring_after_hole(*store, hole_found).1,
    {
        if let Some(qr_index) = match_hole_id_with_qr_on_floor(store, hole_found.hole.id) {
            let (next, actions) = FlyingIntoHole::new(hole_found.hole, qr_index);
            return (Task2DroneState::FlyingIntoHole(next), actions);
        }
        (Task2DroneState::Exploring(self), Vec::new())
    }

    /// A failure.
    pub fn on_failure(self, failure: Failure) -> (step: (Landing, Vec<Action>))
        ensures
            step.1@ == landing_actions(),
    {
        Landing::new()
    }
}

impl FlyingIntoHole {
    /// Enters the state.
    pub fn new(hole: DetectedObject, qr_index: usize) -> (step: (FlyingIntoHole, Vec<Action>))
        ensures
            step.1@ == flying_into_hole_actions(hole, qr_index),
    {
        let mut actions: Vec<Action> = Vec::new();
        actions.push(Action::Call(cancel_all_goals()));
        actions.push(Action::Call(pause_exploration()));
        actions.push(Action::FlyToEntry { hole });
        actions.push(Action::Start(Task::WatchTransit { hole, qr_index: Some(qr_index) }));
        (FlyingIntoHole {  }, actions)
    }

    /// A marker has been read.
    pub fn on_qr_found(self, qr_found: QrFound) -> (next: FlyingIntoHole)
        ensures
            next == self,
    {
        self
    }

    /// An aperture has been found.
    pub fn on_hole_found(self, hole_found: HoleFound) -> (next: FlyingIntoHole)
        ensures
            next == self,
    {
        self
    }

    /// The vehicle has flown through the aperture.
    pub fn on_flew_through_hole(
        self,
        flew_through_hole: FlewThroughHole,
        store: &mut CorrelationStore,
    ) -> (step: (Exploring, Vec<Action>))
        ensures
            step.1@ == go_on_exploring_actions(),
            has_passed_room(*old(store), *final(store), flew_through_hole.qr_index),
            final(store).well_formed(),
    {
        Exploring::go_on(store, flew_through_hole.qr_index)
    }

    /// A failure.
    pub fn on_failure(self, failure: Failure) -> (step: (Landing, Vec<Action>))
        ensures
            step.1@ == landing_actions(),
    {
        Landing::new()
    }
}

impl FlyingToLandingPoint {
    /// Enters the state.
    pub fn new(landing_point: Point) -> (step: (FlyingToLandingPoint, Vec<Action>))
        ensures
            step.1@ == flying_to_landing_point_actions(landing_point),
    {
        let mut actions: Vec<Action> = Vec::new();
        actions.push(Action::Call(cancel_all_goals()));
        let facing = get_orientation_towards_point(&landing_point);
        actions.push(
            Action::FlyTo {
                goal: Waypoint { position: landing_point, facing },
                arrival: Arrival::LandingPoint,
            },
        );
        (FlyingToLandingPoint {  }, actions)
    }

    /// The vehicle is over the place to land on.
    pub fn on_flew_near_landing_point(
        self,
        flew_near_landing_point: FlewNearLandingPoint,
    ) -> (step: (Landing, Vec<Action>))
        ensures
            step.1@ == landing_actions(),
    {
        Landing::new()
    }

    /// A marker has been read.
    pub fn on_qr_found(self, qr_found: QrFound) -> (next: Self)
        ensures
            next == self,
    {
        self
    }

    /// An aperture has been found.
    pub fn on_hole_found(self, hole_found: HoleFound) -> (next: Self)
        ensures
            next == self,
    {
        self
    }

    /// A failure.
    pub fn on_failure(self, failure: Failure) -> (next: Self)
        ensures
            next == self,
    {
        self
    }
}

impl Landing {
    /// Enters the state.
    pub fn new() -> (step: (Landing, Vec<Action>))
        ensures
            step.1@ == landing_actions(),
    {
        let mut actions: Vec<Action> = Vec::new();
        actions.push(Action::Call(cancel_all_goals()));
        actions.push(Action::Call(land()));
        (Landing {  }, actions)
    }

    /// A marker has been read.
    pub fn on_qr_found(self, qr_found: QrFound) -> (next: Self)
        ensures
            next == self,
    {
        self
    }

    /// An aperture has been found.
    pub fn on_hole_found(self, hole_found: HoleFound) -> (next: Self)
        ensures
            next == self,
    {
        self
    }

    /// A failure.
    pub fn on_failure(self, failure: Failure) -> (next: Self)
        ensures
            next == self,
    {
        self
    }
}

/// Puts `message` to the mission whose state is `current` and which
/// remembers `store`: the state becomes what the table names. The result is
/// what to tell an observer of the new state, and what the transition asks
/// for.
pub fn apply(
    current: &mut Task2DroneState,
    message: Task2DroneStateMessages,
    store: &mut CorrelationStore,
) -> (step: (DroneStatus, Vec<Action>))
    ensures
        *final(current) == old(current).next(message, *old(store)),
        step.0.state@ == old(current).next(message, *old(store)).description(),
        step.0.is_error == (old(current).next(message, *old(store)) is Error),
        step.1@ == old(current).actions(message, *old(store)),
        old(current).remembers(message, *old(store), *final(store)),
        old(store).well_formed() ==> final(store).well_formed(),
{
    let (next, actions) = get_drone_state(current).execute(message, store);
    let status = set_drone_state(current, next);
    (status, actions)
}

/// Once in `Error`, the mission stays there, asks for nothing and changes
/// nothing that it remembers.
pub proof fn lemma_error_is_final(message: Task2DroneStateMessages, store: CorrelationStore)
    ensures
        Task2DroneState::Error.next(message, store) == Task2DroneState::Error,
        Task2DroneState::Error.actions(message, store) == Seq::<Action>::empty(),
        Task2DroneState::Error.remembers(message, store, store),
{
}

/// A failure brings a vehicle that explores or flies through an aperture to
/// land, and leaves one that flies to the place to land on or lands as it
/// is.
pub proof fn lemma_failure_leads_to_landing(
    state: Task2DroneState,
    store: CorrelationStore,
    failure: Failure,
)
    ensures
        state is Exploring || state is FlyingIntoHole ==> state.next(
            Task2DroneStateMessages::Failure(failure),
            store,
        ) is Landing,
        state is FlyingToLandingPoint || state is Landing ==> state.next(
            Task2DroneStateMessages::Failure(failure),
            store,
        ) == state,
{
}

/// Whether a routine of looking around may go on: the mission may go on and
/// the vehicle is still exploring.
pub fn may_go_on_exploring(log: &EventLog, state: &Task2DroneState) -> (may: bool)
    ensures
        may == (log.is_ok && state is Exploring),
{
    log.is_ok && state.is_exploring()
}

/// Whether `after` is the memory `before` with `qr` remembered as its latest
/// marker and tied to the aperture nearest to it, if one is near enough.
pub open spec fn has_taken_in_qr(
    before: CorrelationStore,
    after: CorrelationStore,
    qr: Qr,
) -> bool {
    &&& after.options == before.options
    &&& after.detected_holes == before.detected_holes
    &&& after.passed_rooms_numbers == before.passed_rooms_numbers
    &&& after.detected_qr_codes@ == before.detected_qr_codes@.push(qr)
    &&& match nearest_index_within(
        hole_positions(before.detected_holes@),
        qr.position,
        before.options.max_association_distance as int,
    ) {
        Some(index) => {
            &&& after.detected_hole_qr_connections@ == before.qrs_of_holes_with(
                before.detected_holes@[index].id,
                before.detected_qr_codes@.len() as usize,
            )
            &&& after.detected_qr_hole_connections@ == before.holes_of_qrs_with(
                before.detected_holes@[index].id,
                before.detected_qr_codes@.len() as usize,
            )
        },
        None => {
            &&& after.detected_hole_qr_connections@ == before.detected_hole_qr_connections@
            &&& after.detected_qr_hole_connections@ == before.detected_qr_hole_connections@
        },
    }
}

/// Takes in a marker that perception has read. Nothing happens where the
/// mission may not go on or the marker has been seen before. Otherwise the
/// marker is remembered and tied to the aperture nearest to it, if one is
/// near enough, the event of its finding is raised, and the event is put to
/// the mission in the state `state`: the result is what `execute` gives.
pub fn detect_qr(
    store: &mut CorrelationStore,
    log: &mut EventLog,
    state: Task2DroneState,
    qr: Qr,
) -> (step: Option<(Task2DroneState, Vec<Action>)>)
    ensures
        !old(log).is_ok || already_detected(
            old(store).detected_qr_codes@,
            qr,
            old(store).options.max_qr_distance_tolerance as int,
        ) ==> step.is_none() && *final(store) == *old(store) && *final(log) == *old(log),
        old(log).is_ok && !already_detected(
            old(store).detected_qr_codes@,
            qr,
            old(store).options.max_qr_distance_tolerance as int,
        ) ==> {
            let found = Task2DroneStateMessages::QrFound(
                QrFound { qr, index: old(store).detected_qr_codes.len() },
            );
            &&& has_taken_in_qr(*old(store), *final(store), qr)
            &&& final(log).is_ok
            &&& final(log).events@ == old(log).events@.push(EventKind::QrFound)
            &&& step matches Some(taken)
            &&& taken.0 == state.next(found, *final(store))
            &&& taken.1@ == state.actions(found, *final(store))
        },
        old(store).well_formed() ==> final(store).well_formed(),
{
    if !log.is_ok || is_qr_already_detected(store, &qr) {
        return None;
    }
    let qr_index = store.detected_qr_codes.len() - 1;
    let connected_hole = find_connected_hole(store, &qr);
    if let Some(connected_hole) = connected_hole {
        add_hole_qr_connection(store, connected_hole.id, qr_index);
    }
    Some(state.on_qr_found(QrFound::new(log, qr, qr_index), store))
}

/// Whether `after` is the memory `before` with the aperture `hole` tied to
/// the marker nearest to it, if one is near enough.
pub open spec fn has_taken_in_hole(
    before: CorrelationStore,
    after: CorrelationStore,
    hole: DetectedObject,
) -> bool {
    &&& after.options == before.options
    &&& after.detected_holes == before.detected_holes
    &&& after.passed_rooms_numbers == before.passed_rooms_numbers
    &&& after.detected_qr_codes == before.detected_qr_codes
    &&& match nearest_index_within(
        qr_positions(before.detected_qr_codes@),
        hole.pose.position,
        before.options.max_association_distance as int,
    ) {
        Some(index) => {
            &&& after.detected_hole_qr_connections@ == before.qrs_of_holes_with(
                hole.id,
                index as usize,
            )
            &&& after.detected_qr_hole_connections@ == before.holes_of_qrs_with(
                hole.id,
                index as usize,
            )
        },
        None => {
            &&& after.detected_hole_qr_connections@ == before.detected_hole_qr_connections@
            &&& after.detected_qr_hole_connections@ == before.detected_qr_hole_connections@
        },
    }
}

/// Takes in an aperture that perception has newly found. The aperture is
/// tied to the marker nearest to it, if one is near enough, the event of its
/// finding is raised, and the event is put to the mission in the state
/// `state`: the result is what `execute` gives.
pub fn detect_hole(
    store: &mut CorrelationStore,
    log: &mut EventLog,
    state: Task2DroneState,
    hole: DetectedObject,
) -> (step: (Task2DroneState, Vec<Action>))
    ensures
        has_taken_in_hole(*old(store), *final(store), hole),
        final(log).is_ok == old(log).is_ok,
        final(log).events@ == old(log).events@.push(EventKind::HoleFound),
        step.0 == state.next(Task2DroneStateMessages::HoleFound(HoleFound { hole }), *final(store)),
        step.1@ == state.actions(
            Task2DroneStateMessages::HoleFound(HoleFound { hole }),
            *final(store),
        ),
        old(store).well_formed() ==> final(store).well_formed(),
{
    let connected_qr = find_connected_qr(store, &hole);
    if let Some(connected_qr) = connected_qr {
        add_hole_qr_connection(store, hole.id, connected_qr);
    }
    state.on_hole_found(HoleFound::new(log, hole), store)
}

/// One look of the watcher of apertures. `known` apertures have been taken
/// in so far, perception now counts `count`, and `reported` is what it has
/// found. Only a count that has grown brings anything: then the result holds
/// all the apertures reported, in the order of their identifiers, to be
/// remembered; the new ones, which stand at the places from `known` up to
/// `count` of that order, to be taken in one by one; and `count` as the
/// number taken in from now on. Otherwise, as after a count that is repeated
/// or garbled, there is nothing to remember and nothing to take in, and the
/// number taken in stays `known`.
pub fn poll_holes(reported: &Vec<DetectedObject>, known: usize, count: usize) -> (poll: (
    Vec<DetectedObject>,
    Vec<DetectedObject>,
    usize,
))
    ensures
        count <= known ==> poll.0@.len() == 0 && poll.1@.len() == 0 && poll.2 == known,
        count > known ==> poll.0@ == sorted_by_id(reported@) && poll.1@ == sorted_by_id(
            reported@,
        ).subrange(
            if known <= reported.len() {
                known as int
            } else {
                reported.len() as int
            },
            if count <= reported.len() {
                count as int
            } else {
                reported.len() as int
            },
        ) && poll.2 == count,
{
    if !has_new_objects(known, count) {
        return (Vec::new(), Vec::new(), known);
    }
    let sorted = sort_by_id(reported);
    let news = objects_between(&sorted, known, count);
    (sorted, news, count)
}

/// Remembers `holes` as the apertures that perception has reported last.
pub fn set_detected_holes(store: &mut CorrelationStore, holes: Vec<DetectedObject>)
    ensures
        final(store).detected_holes == holes,
        final(store).options == old(store).options,
        final(store).detected_qr_codes == old(store).detected_qr_codes,
        final(store).detected_hole_qr_connections == old(store).detected_hole_qr_connections,
        final(store).detected_qr_hole_connections == old(store).detected_qr_hole_connections,
        final(store).passed_rooms_numbers == old(store).passed_rooms_numbers,
{
    store.detected_holes = holes;
}

} // verus!
