//! The choice of a mission, its parameters, and the two watchdogs that end it.

use vstd::prelude::*;
use crate::actions::{Action, Arrival, Task};
use crate::events::{EventKind, EventLog, Failure};
use crate::msgs::{DetectedObject, DroneStatus};
use crate::service_clients::{init, required_services, Service};
use crate::task1::drone_state::DroneState;
use crate::task1::events::{EntryFound, FlewInsideBuilding, FlewNearStartPoint};
use crate::task1::transitions::DroneStateMessages;
use crate::task2::drone_state::{already_detected, CorrelationStore, Qr, Task2DroneState};
use crate::task2::events::{FlewNearLandingPoint, FlewThroughHole, HoleFound, QrFound};
use crate::task2::transitions::{
    detect_hole, detect_qr, has_taken_in_hole, has_taken_in_qr, may_go_on_exploring,
    Task2DroneStateMessages,
};
use crate::task3::drone_state::Task3DroneState;
use crate::task3::transitions::Task3DroneStateMessages;

verus! {

/// The parameters of the missions. Lengths are in millimetres, speeds in
/// millimetres or milliradians per second, voltages in millivolts.
#[derive(Clone, Copy, Debug, PartialEq, Eq, Structural)]
pub struct TaskManagerOptions {
    pub operating_altitude: u32,
    pub low_altitude: u32,
    pub linear_velocity: u32,
    pub linear_acceleration: u32,
    pub angular_velocity: u32,
    pub angular_acceleration: u32,
    /// Most that the vehicle may be away from the plane of an aperture for
    /// its position to count as the start of a transit.
    pub flying_into_hole_detection_distance: u32,
    /// How far in front of an aperture the vehicle gets ready to fly through.
    pub flying_into_hole_pass_distance: u32,
    /// Least that the vehicle must be past the plane of an aperture for the
    /// transit to be complete.
    pub flying_into_hole_detection_pass_distance: u32,
    pub min_battery_voltage: u32,
    pub task1: Task1Options,
    pub task2: Task2Options,
}

/// The parameters of the first mission.
#[derive(Clone, Copy, Debug, PartialEq, Eq, Structural)]
pub struct Task1Options {
    /// How many cubes are to be found.
    pub cubes_count: usize,
    /// The time allowed for the active part of a mission, in seconds.
    pub max_timer_seconds: u64,
}

/// The parameters of the second mission.
#[derive(Clone, Copy, Debug, PartialEq, Eq, Structural)]
pub struct Task2Options {
    /// The height below which a marker counts as lying on the floor.
    pub max_floor_z: i32,
    /// Most that two sightings of a marker on a wall may be apart to count as
    /// one marker.
    pub max_qr_distance_tolerance: u32,
    /// Most that a marker may be away from the centre of an aperture to
    /// belong to it.
    pub max_association_distance: u32,
}

impl TaskManagerOptions {
    /// The parameters that hold where nothing else is configured.
    pub open spec fn defaults() -> TaskManagerOptions {
        TaskManagerOptions {
            operating_altitude: 1500,
            low_altitude: 500,
            linear_velocity: 100,
            linear_acceleration: 100,
            angular_velocity: 100,
            angular_acceleration: 100,
            flying_into_hole_detection_distance: 300,
            flying_into_hole_pass_distance: 500,
            flying_into_hole_detection_pass_distance: 300,
            min_battery_voltage: 10_000,
            task1: Task1Options { cubes_count: 5, max_timer_seconds: 540 },
            task2: Task2Options {
                max_floor_z: 200,
                max_qr_distance_tolerance: 200,
                max_association_distance: 600,
            },
        }
    }

    /// The parameters that hold where nothing else is configured.
    pub fn new() -> (options: TaskManagerOptions)
        ensures
            options == TaskManagerOptions::defaults(),
    {
        TaskManagerOptions {
            operating_altitude: 1500,
            low_altitude: 500,
            linear_velocity: 100,
            linear_acceleration: 100,
            angular_velocity: 100,
            angular_acceleration: 100,
            flying_into_hole_detection_distance: 300,
            flying_into_hole_pass_distance: 500,
            flying_into_hole_detection_pass_distance: 300,
            min_battery_voltage: 10_000,
            task1: Task1Options { cubes_count: 5, max_timer_seconds: 540 },
            task2: Task2Options {
                max_floor_z: 200,
                max_qr_distance_tolerance: 200,
                max_association_distance: 600,
            },
        }
    }
}

/// The three missions.
#[derive(Clone, Copy, Debug, PartialEq, Eq, Structural)]
pub enum TaskType {
    One,
    Two,
    Three,
}

/// Why a mission was not started.
#[derive(Clone, Copy, Debug, PartialEq, Eq, Structural)]
pub enum StartError {
    /// The number names none of the three missions.
    WrongTaskNumber,
}

impl StartError {
    /// What the one who asked is told.
    pub fn message(&self) -> (message: &'static str)
        ensures
            message@ == "Wrong task number is specified"@,
    {
        "Wrong task number is specified"
    }
}

impl TaskType {
    /// The mission that `task` names, if it names one: 1, 2 and 3 do.
    pub open spec fn named_by(task: int) -> Option<TaskType> {
        if task == 1 {
            Some(TaskType::One)
        } else if task == 2 {
            Some(TaskType::Two)
        } else if task == 3 {
            Some(TaskType::Three)
        } else {
            None
        }
    }

    /// The mission that `task` names. A number that names none is refused.
    pub fn from_number(task: i64) -> (chosen: Result<TaskType, StartError>)
        ensures
            chosen == match TaskType::named_by(task as int) {
                Some(task_type) => Ok::<TaskType, StartError>(task_type),
                None => Err::<TaskType, StartError>(StartError::WrongTaskNumber),
            },
    {
        if task == 1 {
            Ok(TaskType::One)
        } else if task == 2 {
            Ok(TaskType::Two)
        } else if task == 3 {
            Ok(TaskType::Three)
        } else {
            Err(StartError::WrongTaskNumber)
        }
    }

    /// The number that names this mission.
    pub fn number(&self) -> (task: i64)
        ensures
            TaskType::named_by(task as int) == Some(*self),
    {
        match self {
            TaskType::One => 1,
            TaskType::Two => 2,
            TaskType::Three => 3,
        }
    }
}

/// What the battery watchdog finds at one look: the failure of a low battery
/// exactly when `voltage` is at the permitted minimum or below. The failure
/// is raised on `log`, and nothing else is.
pub fn check_battery(
    voltage: u32,
    options: &TaskManagerOptions,
    log: &mut EventLog,
) -> (found: Option<Failure>)
    ensures
        voltage <= options.min_battery_voltage ==> found == Some(Failure::LowVoltageDetected)
            && !final(log).is_ok && final(log).events@ == old(log).events@.push(
            EventKind::LowVoltageDetected,
        ),
        voltage > options.min_battery_voltage ==> found.is_none() && *final(log) == *old(log),
{
    if voltage <= options.min_battery_voltage {
        Some(Failure::new_low_voltage_detected(log))
    } else {
        None
    }
}

/// Whether, `elapsed_seconds` into a mission, the timer announces that
/// another minute has passed: after the first minute, at a look that falls
/// into the first five seconds of a minute.
pub open spec fn announces_minute(elapsed_seconds: u64) -> bool {
    elapsed_seconds > 60 && elapsed_seconds % 60 < 5
}

/// What the mission timer finds at one look.
#[derive(Clone, Copy, Debug, PartialEq, Eq, Structural)]
pub struct TimerCheck {
    /// The number of whole minutes to announce as passed, if any.
    pub minutes_passed: Option<u64>,
    /// The failure of time run out, if it has.
    pub failure: Option<Failure>,
}

/// What the mission timer finds `elapsed_seconds` into a mission: a minute to
/// announce, where [`announces_minute`] says so, and the failure of time run
/// out exactly when more than the permitted time has passed. The failure is
/// raised on `log`, and nothing else is.
pub fn check_timer(
    elapsed_seconds: u64,
    options: &TaskManagerOptions,
    log: &mut EventLog,
) -> (found: TimerCheck)
    ensures
        announces_minute(elapsed_seconds) ==> found.minutes_passed == Some(
            (elapsed_seconds / 60) as u64,
        ),
        !announces_minute(elapsed_seconds) ==> found.minutes_passed.is_none(),
        elapsed_seconds > options.task1.max_timer_seconds ==> found.failure == Some(Failure::Timeout)
            && !final(log).is_ok && final(log).events@ == old(log).events@.push(EventKind::Timeout),
        elapsed_seconds <= options.task1.max_timer_seconds ==> found.failure.is_none() && *final(log)
            == *old(log),
{
    let minutes_passed = if elapsed_seconds > 60 && elapsed_seconds % 60 < 5 {
        Some(elapsed_seconds / 60)
    } else {
        None
    };
    let failure = if elapsed_seconds > options.task1.max_timer_seconds {
        Some(Failure::new_timeout(log))
    } else {
        None
    };
    TimerCheck { minutes_passed, failure }
}

/// A mission and the state that it is in.
#[derive(Clone, Copy, Debug, PartialEq, Eq, Structural)]
pub enum Mission {
    One(DroneState),
    Two(Task2DroneState),
    Three(Task3DroneState),
}

impl Mission {
    /// Which of the three missions this is.
    pub open spec fn spec_task_type(self) -> TaskType {
        match self {
            Mission::One(_) => TaskType::One,
            Mission::Two(_) => TaskType::Two,
            Mission::Three(_) => TaskType::Three,
        }
    }

    /// The mission `task_type` before its start.
    pub open spec fn waiting(task_type: TaskType) -> Mission {
        match task_type {
            TaskType::One => Mission::One(
                DroneState::WaitingForCommand(crate::task1::drone_state::WaitingForCommand {  }),
            ),
            TaskType::Two => Mission::Two(
                Task2DroneState::WaitingForCommand(crate::task2::drone_state::WaitingForCommand {  }),
            ),
            TaskType::Three => Mission::Three(
                Task3DroneState::WaitingForCommand(crate::task3::drone_state::WaitingForCommand {  }),
            ),
        }
    }

    /// The mission after the command to begin: each mission follows its own
    /// table.
    pub open spec fn started(self) -> Mission {
        match self {
            Mission::One(state) => Mission::One(
                state.next(DroneStateMessages::Start(crate::task1::commands::Start {  })),
            ),
            Mission::Two(state) => Mission::Two(state.after_start()),
            Mission::Three(state) => Mission::Three(
                state.next(Task3DroneStateMessages::Start(crate::task3::commands::Start {  })),
            ),
        }
    }

    /// What the command to begin asks for.
    pub open spec fn starting_actions(self) -> Seq<Action> {
        match self {
            Mission::One(state) => state.actions(
                DroneStateMessages::Start(crate::task1::commands::Start {  }),
            ),
            Mission::Two(state) => state.actions_on_start(),
            Mission::Three(state) => state.actions(
                Task3DroneStateMessages::Start(crate::task3::commands::Start {  }),
            ),
        }
    }

    /// The mission after a failure. The first two missions follow their
    /// tables. The table of the third mission knows no failure, so a failure
    /// is an event without a transition there.
    pub open spec fn failed(self, failure: Failure) -> Mission {
        match self {
            Mission::One(state) => Mission::One(state.next(DroneStateMessages::Failure(failure))),
            Mission::Two(state) => Mission::Two(state.after_failure()),
            Mission::Three(_) => Mission::Three(Task3DroneState::Error),
        }
    }

    /// What a failure asks for.
    pub open spec fn failing_actions(self, failure: Failure) -> Seq<Action> {
        match self {
            Mission::One(state) => state.actions(DroneStateMessages::Failure(failure)),
            Mission::Two(state) => state.actions_on_failure(),
            Mission::Three(_) => Seq::empty(),
        }
    }

    /// The mission `task_type` before its start.
    pub fn new(task_type: TaskType) -> (mission: Mission)
        ensures
            mission == Mission::waiting(task_type),
    {
        match task_type {
            TaskType::One => Mission::One(DroneState::waiting_for_command()),
            TaskType::Two => Mission::Two(Task2DroneState::waiting_for_command()),
            TaskType::Three => Mission::Three(Task3DroneState::waiting_for_command()),
        }
    }

    /// Which of the three missions this is.
    pub fn task_type(&self) -> (task_type: TaskType)
        ensures
            task_type == self.spec_task_type(),
    {
        match self {
            Mission::One(_) => TaskType::One,
            Mission::Two(_) => TaskType::Two,
            Mission::Three(_) => TaskType::Three,
        }
    }

    /// Puts the command to begin to the mission.
    pub fn on_start(self) -> (step: (Mission, Vec<Action>))
        ensures
            step.0 == self.started(),
            step.1@ == self.starting_actions(),
    {
        match self {
            Mission::One(state) => {
                let (next, actions) = state.on_start(crate::task1::commands::Start {  });
                (Mission::One(next), actions)
            },
            Mission::Two(state) => {
                let (next, actions) = state.on_start(crate::task2::commands::Start {  });
                (Mission::Two(next), actions)
            },
            Mission::Three(state) => {
                let (next, actions) = state.on_start(crate::task3::commands::Start {  });
                (Mission::Three(next), actions)
            },
        }
    }

    /// Tells the mission of a failure.
    pub fn on_failure(self, failure: Failure) -> (step: (Mission, Vec<Action>))
        ensures
            step.0 == self.failed(failure),
            step.1@ == self.failing_actions(failure),
    {
        match self {
            Mission::One(state) => {
                let (next, actions) = state.on_failure(failure);
                (Mission::One(next), actions)
            },
            Mission::Two(state) => {
                let (next, actions) = state.on_failure(failure);
                (Mission::Two(next), actions)
            },
            Mission::Three(_) => (Mission::Three(Task3DroneState::Error), Vec::new()),
        }
    }

    /// Whether a guarded routine may go on: any routine of the first and
    /// the third mission may, and one of the second mission while the mission
    /// may go on and the vehicle is exploring.
    pub fn may_go_on(&self, log: &EventLog) -> (may: bool)
        ensures
            may == match self {
                Mission::Two(state) => log.is_ok && state is Exploring,
                _ => true,
            },
    {
        match self {
            Mission::Two(state) => may_go_on_exploring(log, state),
            _ => true,
        }
    }

    /// The search for the entry has found `entry`: in the first mission the
    /// event is raised and put to the mission. The other missions search for
    /// no entry, and nothing happens.
    pub fn on_entry_found(
        self,
        log: &mut EventLog,
        entry: DetectedObject,
    ) -> (step: Option<(Mission, Vec<Action>)>)
        ensures
            match self {
                Mission::One(state) => {
                    &&& step matches Some(taken)
                    &&& taken.0 == Mission::One(
                        state.next(DroneStateMessages::EntryFound(EntryFound { entry })),
                    )
                    &&& taken.1@ == state.actions(DroneStateMessages::EntryFound(EntryFound { entry }))
                    &&& final(log).events@ == old(log).events@.push(EventKind::EntryFound)
                    &&& final(log).is_ok == old(log).is_ok
                },
                _ => step.is_none() && *final(log) == *old(log),
            },
    {
        match self {
            Mission::One(state) => {
                let (next, actions) = state.on_entry_found(EntryFound::new(log, entry));
                Some((Mission::One(next), actions))
            },
            _ => None,
        }
    }

    /// The vehicle has flown through the aperture that was watched. In the
    /// first mission it is inside the building then. In the second mission it
    /// is in the next room, led there by the marker `qr_index`, and `store`
    /// comes to remember the room passed. The event is raised and put to the
    /// mission. Nothing happens in the third mission, nor in the second
    /// without a marker.
    pub fn on_transit(
        self,
        log: &mut EventLog,
        store: &mut CorrelationStore,
        qr_index: Option<usize>,
    ) -> (step: Option<(Mission, Vec<Action>)>)
        ensures
            match (self, qr_index) {
                (Mission::One(state), _) => {
                    &&& step matches Some(taken)
                    &&& taken.0 == Mission::One(
                        state.next(DroneStateMessages::FlewInsideBuilding(FlewInsideBuilding {  })),
                    )
                    &&& taken.1@ == state.actions(
                        DroneStateMessages::FlewInsideBuilding(FlewInsideBuilding {  }),
                    )
                    &&& final(log).events@ == old(log).events@.push(EventKind::FlewInsideBuilding)
                    &&& final(log).is_ok == old(log).is_ok
                    &&& *final(store) == *old(store)
                },
                (Mission::Two(state), Some(qr_index)) => {
                    &&& step matches Some(taken)
                    &&& taken.0 == Mission::Two(state.after_flew_through_hole())
                    &&& taken.1@ == state.actions_on_flew_through_hole()
                    &&& final(log).events@ == old(log).events@.push(EventKind::FlewThroughHole)
                    &&& final(log).is_ok == old(log).is_ok
                    &&& state.remembers(
                        Task2DroneStateMessages::FlewThroughHole(FlewThroughHole { qr_index }),
                        *old(store),
                        *final(store),
                    )
                },
                _ => step.is_none() && *final(log) == *old(log) && *final(store) == *old(store),
            },
            old(store).well_formed() ==> final(store).well_formed(),
    {
        match self {
            Mission::One(state) => {
                let (next, actions) = state.on_flew_inside_building(FlewInsideBuilding::new(log));
                Some((Mission::One(next), actions))
            },
            Mission::Two(state) => match qr_index {
                Some(qr_index) => {
                    let event = FlewThroughHole::new(log, qr_index);
                    let (next, actions) = state.on_flew_through_hole(event, store);
                    Some((Mission::Two(next), actions))
                },
                None => None,
            },
            Mission::Three(_) => None,
        }
    }

    /// A flight has reached its goal: the start point in the first mission,
    /// or the place to land on in the second. The event is raised and put to
    /// the mission. Nothing happens where the mission knows no such arrival.
    pub fn on_arrival(
        self,
        log: &mut EventLog,
        arrival: Arrival,
    ) -> (step: Option<(Mission, Vec<Action>)>)
        ensures
            match (self, arrival) {
                (Mission::One(state), Arrival::StartPoint) => {
                    &&& step matches Some(taken)
                    &&& taken.0 == Mission::One(
                        state.next(DroneStateMessages::FlewNearStartPoint(FlewNearStartPoint {  })),
                    )
                    &&& taken.1@ == state.actions(
                        DroneStateMessages::FlewNearStartPoint(FlewNearStartPoint {  }),
                    )
                    &&& final(log).events@ == old(log).events@.push(EventKind::FlewNearStartPoint)
                    &&& final(log).is_ok == old(log).is_ok
                },
                (Mission::Two(state), Arrival::LandingPoint) => {
                    &&& step matches Some(taken)
                    &&& taken.0 == Mission::Two(state.after_flew_near_landing_point())
                    &&& taken.1@ == state.actions_on_flew_near_landing_point()
                    &&& final(log).events@ == old(log).events@.push(
                        EventKind::FlewNearLandingPoint,
                    )
                    &&& final(log).is_ok == old(log).is_ok
                },
                _ => step.is_none() && *final(log) == *old(log),
            },
    {
        match (self, arrival) {
            (Mission::One(state), Arrival::StartPoint) => {
                let (next, actions) = state.on_flew_near_start_point(FlewNearStartPoint::new(log));
                Some((Mission::One(next), actions))
            },
            (Mission::Two(state), Arrival::LandingPoint) => {
                let (next, actions) = state.on_flew_near_landing_point(
                    FlewNearLandingPoint::new(log),
                );
                Some((Mission::Two(next), actions))
            },
            _ => None,
        }
    }

    /// Perception has read the marker `qr`: the second mission takes it in as
    /// [`detect_qr`] says. Nothing happens in the other missions.
    pub fn on_qr(
        self,
        log: &mut EventLog,
        store: &mut CorrelationStore,
        qr: Qr,
    ) -> (step: Option<(Mission, Vec<Action>)>)
        ensures
            self !is Two ==> step.is_none() && *final(log) == *old(log) && *final(store) == *old(
                store,
            ),
            self matches Mission::Two(state) ==> {
                let detected = !old(log).is_ok || already_detected(
                    old(store).detected_qr_codes@,
                    qr,
                    old(store).options.max_qr_distance_tolerance as int,
                );
                let found = Task2DroneStateMessages::QrFound(
                    QrFound { qr, index: old(store).detected_qr_codes.len() },
                );
                &&& detected ==> step.is_none() && *final(log) == *old(log) && *final(store) == *old(
                    store,
                )
                &&& !detected ==> {
                    &&& has_taken_in_qr(*old(store), *final(store), qr)
                    &&& final(log).is_ok
                    &&& final(log).events@ == old(log).events@.push(EventKind::QrFound)
                    &&& step matches Some(taken)
                    &&& taken.0 == Mission::Two(state.next(found, *final(store)))
                    &&& taken.1@ == state.actions(found, *final(store))
                }
            },
            old(store).well_formed() ==> final(store).well_formed(),
    {
        match self {
            Mission::Two(state) => match detect_qr(store, log, state, qr) {
                Some((next, actions)) => Some((Mission::Two(next), actions)),
                None => None,
            },
            _ => None,
        }
    }

    /// Perception has found the aperture `hole`: the second mission takes it
    /// in as [`detect_hole`] says. Nothing happens in the other missions.
    pub fn on_hole(
        self,
        log: &mut EventLog,
        store: &mut CorrelationStore,
        hole: DetectedObject,
    ) -> (step: Option<(Mission, Vec<Action>)>)
        ensures
            self !is Two ==> step.is_none() && *final(log) == *old(log) && *final(store) == *old(
                store,
            ),
            self matches Mission::Two(state) ==> {
                let found = Task2DroneStateMessages::HoleFound(HoleFound { hole });
                &&& has_taken_in_hole(*old(store), *final(store), hole)
                &&& final(log).is_ok == old(log).is_ok
                &&& final(log).events@ == old(log).events@.push(EventKind::HoleFound)
                &&& step matches Some(taken)
                &&& taken.0 == Mission::Two(state.next(found, *final(store)))
                &&& taken.1@ == state.actions(found, *final(store))
            },
            old(store).well_formed() ==> final(store).well_formed(),
    {
        match self {
            Mission::Two(state) => {
                let (next, actions) = detect_hole(store, log, state, hole);
                Some((Mission::Two(next), actions))
            },
            _ => None,
        }
    }

    /// What to tell an observer of the state that the mission is in.
    pub fn status(&self) -> (status: DroneStatus)
        ensures
            status.state@ == match self {
                Mission::One(state) => state.description(),
                Mission::Two(state) => state.description(),
                Mission::Three(state) => state.description(),
            },
            status.is_error == match self {
                Mission::One(state) => state is Error,
                Mission::Two(state) => state is Error,
                Mission::Three(state) => state is Error,
            },
    {
        match self {
            Mission::One(state) => state.status(),
            Mission::Two(state) => state.status(),
            Mission::Three(state) => state.status(),
        }
    }
}

/// What is to be done when the mission `task_type` is started, in order: the
/// two watchdogs begin, the services of the mission are waited for, the
/// command to begin is put to the mission, and the start is reported.
pub open spec fn start_actions(task_type: TaskType) -> Seq<Action> {
    seq![Action::Start(Task::WatchBattery), Action::Start(Task::WatchTimer)] + required_services(
        task_type,
    ).map_values(|service: Service| Action::WaitFor(service)) + Mission::waiting(
        task_type,
    ).starting_actions() + seq![Action::ReportStarted]
}

/// Starts the mission that `task` names. A number that names no mission is
/// refused, and nothing is started. Otherwise the result is the mission
/// after the command to begin, together with what is to be done.
pub fn start_mission(task: i64) -> (started: Result<(Mission, Vec<Action>), StartError>)
    ensures
        match TaskType::named_by(task as int) {
            Some(task_type) => started matches Ok(step) && step.0 == Mission::waiting(
                task_type,
            ).started() && step.1@ == start_actions(task_type),
            None => started == Err::<(Mission, Vec<Action>), StartError>(StartError::WrongTaskNumber),
        },
{
    let task_type = match TaskType::from_number(task) {
        Ok(task_type) => task_type,
        Err(error) => {
            return Err(error);
        },
    };
    let mut actions: Vec<Action> = Vec::new();
    actions.push(Action::Start(Task::WatchBattery));
    actions.push(Action::Start(Task::WatchTimer));
    let services = init(task_type);
    let ghost waits = required_services(task_type).map_values(
        |service: Service| Action::WaitFor(service),
    );
    let ghost begun = actions@;
    let mut index: usize = 0;
    while index < services.len()
        invariant
            index <= services.len(),
            services@ == required_services(task_type),
            waits == required_services(task_type).map_values(
                |service: Service| Action::WaitFor(service),
            ),
            actions@ == begun + waits.take(index as int),
        decreases services.len() - index,
    {
        actions.push(Action::WaitFor(services[index]));
        index += 1;
    }
    let (mission, mut more) = Mission::new(task_type).on_start();
    actions.append(&mut more);
    actions.push(Action::ReportStarted);
    Ok((mission, actions))
}

} // verus!
