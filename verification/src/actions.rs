//! What a transition asks for: requests to make, goals to fly to and watchers
//! to start. A transition names its actions; whoever runs the mission carries
//! them out in order.

use vstd::prelude::*;
use crate::events::EventLog;
use crate::geometry::{
    entry_in_hole, get_entry_in_hole, DroneFlewThroughHoleResult, TransitModel,
};
use crate::msgs::{DetectedObject, Point, Waypoint};
use crate::service_clients::{
    add_virtual_wall, enable_virtual_walls, spin_and_wait, start_exploration, stop_spinning,
    takeoff, Service, ServiceRequest,
};
use crate::task_manager::TaskManagerOptions;

verus! {

/// Where a flight ends: the event to raise when its goal is reached.
#[derive(Clone, Copy, Debug, PartialEq, Eq, Structural)]
pub enum Arrival {
    /// Back where the mission started.
    StartPoint,
    /// Over the place to land on.
    LandingPoint,
}

/// A fixed run of requests, made one after the other in the background.
#[derive(Clone, Copy, Debug, PartialEq, Eq, Structural)]
pub enum Routine {
    /// Climb to the operating altitude.
    Takeoff,
    /// Heed the walls, look around once and explore.
    Survey,
    /// Climb, look around low and high, and explore.
    StartExploring,
    /// Look around low and high, and explore.
    GoOnExploring,
}

impl Routine {
    /// The requests of the routine, in order.
    pub open spec fn requests(self, options: TaskManagerOptions) -> Seq<ServiceRequest> {
        let look_low = ServiceRequest::Spin {
            laps_count: 1,
            altitude: options.low_altitude,
            angular_velocity: options.angular_velocity,
            wait: true,
        };
        let look_high = ServiceRequest::Spin {
            laps_count: 1,
            altitude: options.operating_altitude,
            angular_velocity: options.angular_velocity,
            wait: true,
        };
        let climb = ServiceRequest::Takeoff { height: options.operating_altitude, land: false };
        let explore = ServiceRequest::UseFuel { data: true };
        match self {
            Routine::Takeoff => seq![climb],
            Routine::Survey => seq![
                ServiceRequest::SetAreWallsEnabled { data: true },
                look_high,
                explore,
            ],
            Routine::StartExploring => seq![climb, look_low, look_high, explore],
            Routine::GoOnExploring => seq![look_low, look_high, explore],
        }
    }

    /// Whether the routine is given up as soon as the mission may not go on
    /// or is no longer exploring.
    pub open spec fn is_guarded(self) -> bool {
        self == Routine::StartExploring || self == Routine::GoOnExploring
    }

    /// The request to make at the place `step` of the routine, counted from
    /// zero, if the routine goes on: it ends after its last request, and a
    /// guarded routine ends after its first request unless `may_go_on`.
    pub open spec fn request_at(
        self,
        step: int,
        may_go_on: bool,
        options: TaskManagerOptions,
    ) -> Option<ServiceRequest> {
        if 0 <= step < self.requests(options).len() && (step == 0 || !self.is_guarded()
            || may_go_on) {
            Some(self.requests(options)[step])
        } else {
            None
        }
    }

    /// The next request of the routine, or none where the routine has ended.
    /// `may_go_on` says whether the mission may go on and is still exploring.
    pub fn step(
        &self,
        step: usize,
        may_go_on: bool,
        options: &TaskManagerOptions,
    ) -> (request: Option<ServiceRequest>)
        ensures
            request == self.request_at(step as int, may_go_on, *options),
    {
        let look_low = spin_and_wait(1, options.low_altitude, options.angular_velocity);
        let look_high = spin_and_wait(1, options.operating_altitude, options.angular_velocity);
        let climb = takeoff(options.operating_altitude);
        let explore = start_exploration();
        match self {
            Routine::Takeoff => if step == 0 {
                Some(climb)
            } else {
                None
            },
            Routine::Survey => if step == 0 {
                Some(enable_virtual_walls())
            } else if step == 1 {
                Some(look_high)
            } else if step == 2 {
                Some(explore)
            } else {
                None
            },
            Routine::StartExploring => if step == 0 {
                Some(climb)
            } else if !may_go_on {
                None
            } else if step == 1 {
                Some(look_low)
            } else if step == 2 {
                Some(look_high)
            } else if step == 3 {
                Some(explore)
            } else {
                None
            },
            Routine::GoOnExploring => if step == 0 {
                Some(look_low)
            } else if !may_go_on {
                None
            } else if step == 1 {
                Some(look_high)
            } else if step == 2 {
                Some(explore)
            } else {
                None
            },
        }
    }
}

/// What runs in the background of a mission.
#[derive(Clone, Copy, Debug, PartialEq, Eq, Structural)]
pub enum Task {
    /// Make the requests of a routine.
    Run(Routine),
    /// Announce the position of each cube that perception finds.
    WatchCubes,
    /// Ask perception for the nearest aperture until it names one.
    LookForEntry,
    /// Follow the vehicle until it has flown through `hole`. In the second
    /// mission `qr_index` names the marker that led to the aperture.
    WatchTransit { hole: DetectedObject, qr_index: Option<usize> },
    /// Take in the markers that perception reads.
    WatchQrCodes,
    /// Take in the apertures that perception finds.
    WatchHoles,
    /// Take in the points of the line that are made out.
    WatchLine,
    /// Climb, and steer along the line.
    FollowLine,
    /// Look at the battery until it is low.
    WatchBattery,
    /// Look at the clock until the time of the mission has run out.
    WatchTimer,
}

impl Task {
    /// The time from one look of the task to the next, in milliseconds, for a
    /// task that looks again and again. A routine is run through without a
    /// pause, and markers and points of the line are taken in as they come.
    pub fn period(&self) -> (milliseconds: Option<u64>)
        ensures
            milliseconds == match self {
                Task::Run(_) => None::<u64>,
                Task::WatchQrCodes => None,
                Task::WatchLine => None,
                Task::WatchCubes => Some(1000u64),
                Task::LookForEntry => Some(1000u64),
                Task::WatchHoles => Some(1000u64),
                Task::WatchBattery => Some(1000u64),
                Task::WatchTimer => Some(5000u64),
                Task::WatchTransit { .. } => Some(250u64),
                Task::FollowLine => Some(50u64),
            },
    {
        match self {
            Task::Run(_) => None,
            Task::WatchQrCodes => None,
            Task::WatchLine => None,
            Task::WatchCubes => Some(1000),
            Task::LookForEntry => Some(1000),
            Task::WatchHoles => Some(1000),
            Task::WatchBattery => Some(1000),
            Task::WatchTimer => Some(5000),
            Task::WatchTransit { .. } => Some(250),
            Task::FollowLine => Some(50),
        }
    }

    /// The routine to run to its end before the task itself begins, if any.
    pub fn preparation(&self) -> (routine: Option<Routine>)
        ensures
            routine == if self == Task::FollowLine {
                Some(Routine::Takeoff)
            } else {
                None
            },
    {
        match self {
            Task::FollowLine => Some(Routine::Takeoff),
            _ => None,
        }
    }
}

/// One thing that a transition asks for.
#[derive(Clone, Copy, Debug, PartialEq, Eq, Structural)]
pub enum Action {
    /// Wait until the service is offered.
    WaitFor(Service),
    /// Report that the mission has started.
    ReportStarted,
    /// Make a request and wait for the answer.
    Call(ServiceRequest),
    /// Fly to where the way through `hole` begins, as [`entry_goal`] says.
    FlyToEntry { hole: DetectedObject },
    /// Fly to `goal`, and raise the event of `arrival` once there.
    FlyTo { goal: Waypoint, arrival: Arrival },
    /// Start a task in the background.
    Start(Task),
}

/// The goal of the flight to the entry of `hole`, for a vehicle at
/// `drone_position`: the entry lies the configured pass distance in front of
/// the aperture.
pub fn entry_goal(
    hole: &DetectedObject,
    drone_position: &Point,
    options: &TaskManagerOptions,
) -> (goal: Waypoint)
    ensures
        goal == entry_in_hole(
            *hole,
            *drone_position,
            options.flying_into_hole_pass_distance as int,
        ),
{
    get_entry_in_hole(hole, drone_position, options.flying_into_hole_pass_distance)
}

/// What one look at the vehicle tells the watcher of a transit.
#[derive(Clone, Copy, Debug)]
pub enum TransitWatch {
    /// The vehicle has not flown through yet: look again.
    Watching(DroneFlewThroughHoleResult),
    /// The mission may not go on: stop watching.
    Abandoned,
    /// The vehicle has flown through: make the request, which closes the
    /// aperture behind it, raise the event of the transit, and stop watching.
    Completed(ServiceRequest),
}

/// The detector with which the watcher of a transit through `hole` starts,
/// for a vehicle at `drone_position`, with the configured distances.
pub fn begin_transit_watch(
    hole: &DetectedObject,
    drone_position: &Point,
    options: &TaskManagerOptions,
) -> (state: DroneFlewThroughHoleResult)
    ensures
        state@ == TransitModel::begin(
            hole.pose.position,
            hole.pose.orientation@,
            options.flying_into_hole_detection_distance as int,
            *drone_position,
            options.flying_into_hole_detection_pass_distance as int,
        ),
{
    DroneFlewThroughHoleResult::begin(
        &hole.pose.position,
        &hole.pose.orientation,
        options.flying_into_hole_detection_distance,
        drone_position,
        options.flying_into_hole_detection_pass_distance,
    )
}

/// One look of the watcher of a transit through `hole`, with the vehicle at
/// `drone_position`. A mission that may not go on abandons the watch.
/// Otherwise the detector is updated, and the watch is completed exactly
/// when the detector then reports the transit.
pub fn watch_transit(
    previous: DroneFlewThroughHoleResult,
    hole: &DetectedObject,
    drone_position: &Point,
    log: &EventLog,
) -> (watch: TransitWatch)
    ensures
        !log.is_ok ==> watch is Abandoned,
        log.is_ok && previous@.update(*drone_position).flew_through ==> watch
            == TransitWatch::Completed(ServiceRequest::AddWalls { wall: *hole }),
        log.is_ok && !previous@.update(*drone_position).flew_through ==> (watch matches TransitWatch::Watching(
            state,
        ) && state@ == previous@.update(*drone_position)),
{
    if !log.is_ok {
        return TransitWatch::Abandoned;
    }
    let state = previous.update(drone_position);
    if state.flew_through() {
        TransitWatch::Completed(add_virtual_wall(*hole))
    } else {
        TransitWatch::Watching(state)
    }
}

/// What one answer of perception tells the search for an entry.
#[derive(Clone, Copy, Debug, PartialEq, Eq, Structural)]
pub enum EntrySearch {
    /// No aperture yet: ask again.
    Searching,
    /// The mission may not go on: make the request and stop searching.
    Abandoned(ServiceRequest),
    /// An aperture: make the request, raise the event that the entry is
    /// found, and stop searching.
    Found(ServiceRequest, DetectedObject),
}

/// One step of the search for an entry. `nearest` is the aperture that
/// perception names, if it names one. The search goes on while there is none
/// and the mission may go on. When it ends the vehicle stops turning, and
/// the entry counts as found only if the mission may still go on.
pub fn look_for_entry(nearest: Option<DetectedObject>, log: &EventLog) -> (search: EntrySearch)
    ensures
        search == match nearest {
            None => if log.is_ok {
                EntrySearch::Searching
            } else {
                EntrySearch::Abandoned(ServiceRequest::StopSpin)
            },
            Some(entry) => if log.is_ok {
                EntrySearch::Found(ServiceRequest::StopSpin, entry)
            } else {
                EntrySearch::Abandoned(ServiceRequest::StopSpin)
            },
        },
{
    match nearest {
        None => if log.is_ok {
            EntrySearch::Searching
        } else {
            EntrySearch::Abandoned(stop_spinning())
        },
        Some(entry) => if log.is_ok {
            EntrySearch::Found(stop_spinning(), entry)
        } else {
            EntrySearch::Abandoned(stop_spinning())
        },
    }
}

} // verus!
