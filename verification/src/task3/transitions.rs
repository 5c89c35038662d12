//! The transition of the third mission, the line that the vehicle has made
//! out so far, and the steering along it.

use vstd::prelude::*;
use crate::actions::{Action, Task};
use crate::geometry::{
    facing_or_default, get_squared_distance_between_points, has_similar_orientation, saturated,
    similar_orientation, squared_distance,
};
use crate::msgs::{DroneStatus, Point, Pose, Vector3, Waypoint, AXIS_UNIT};
use crate::task3::commands::Start;
use crate::task3::drone_state::{
    get_drone_state, set_drone_state, FollowingLine, Task3DroneState, WaitingForCommand,
};

verus! {

/// How near to the vehicle a point must be found to be added to a line that
/// has two points or more, in millimetres: nearer than this.
pub const MAX_POINT_DISTANCE: u32 = 3500;

/// How far from every point of the line a point must be to be added to it,
/// in millimetres: this far at least.
pub const MIN_POINT_SPACING: u32 = 500;

/// How near the vehicle must come to a point of the line to turn to the
/// next one, in millimetres.
pub const REACHED_DISTANCE: u32 = 200;

/// The height at which the vehicle follows the line, in millimetres.
pub const FOLLOWING_ALTITUDE: i32 = 1000;

/// Everything that can be put to the third mission.
#[derive(Clone, Copy, Debug, PartialEq, Eq, Structural)]
pub enum Task3DroneStateMessages {
    Start(Start),
}

/// What is asked for on beginning to follow the line.
pub open spec fn following_line_actions() -> Seq<Action> {
    seq![Action::Start(Task::WatchLine), Action::Start(Task::FollowLine)]
}

/// What is asked for when the mission starts.
pub open spec fn starting_actions() -> Seq<Action> {
    seq![Action::ReportStarted] + following_line_actions()
}

impl Task3DroneState {
    /// The table of the third mission: the command to begin leads from
    /// waiting to following the line, and to `Error` from anywhere else.
    pub open spec fn next(self, message: Task3DroneStateMessages) -> Task3DroneState {
        match (self, message) {
            (
                Task3DroneState::WaitingForCommand(_),
                Task3DroneStateMessages::Start(_),
            ) => Task3DroneState::FollowingLine(FollowingLine {  }),
            _ => Task3DroneState::Error,
        }
    }

    /// What `message` asks for in this state, in the order in which it is to
    /// be done. A transition into `Error` asks for nothing.
    pub open spec fn actions(self, message: Task3DroneStateMessages) -> Seq<Action> {
        match (self, message) {
            (
                Task3DroneState::WaitingForCommand(_),
                Task3DroneStateMessages::Start(_),
            ) => starting_actions(),
            _ => Seq::empty(),
        }
    }

    /// Puts the command to begin to the mission.
    pub fn on_start(self, input: Start) -> (step: (Task3DroneState, Vec<Action>))
        ensures
            step.0 == self.next(Task3DroneStateMessages::Start(input)),
            step.1@ == self.actions(Task3DroneStateMessages::Start(input)),
    {
        match self {
            Task3DroneState::WaitingForCommand(state) => {
                let (next, actions) = state.on_start(input);
                (Task3DroneState::FollowingLine(next), actions)
            },
            _ => (Task3DroneState::Error, Vec::new()),
        }
    }

    /// Puts `input` to the mission: the state that the table names, and what
    /// the transition asks for.
    pub fn execute(self, input: Task3DroneStateMessages) -> (step: (Task3DroneState, Vec<Action>))
        ensures
            step.0 == self.next(input),
            step.1@ == self.actions(input),
    {
        match input {
            Task3DroneStateMessages::Start(message) => self.on_start(message),
        }
    }
}

impl WaitingForCommand {
    /// The command to begin.
    pub fn on_start(self, command: Start) -> (step: (FollowingLine, Vec<Action>))
        ensures
            step.1@ == starting_actions(),
    {
        let mut actions: Vec<Action> = Vec::new();
        actions.push(Action::ReportStarted);
        let (next, mut more) = FollowingLine::new();
        actions.append(&mut more);
        (next, actions)
    }
}

impl FollowingLine {
    /// Enters the state.
    pub fn new() -> (step: (FollowingLine, Vec<Action>))
        ensures
            step.1@ == following_line_actions(),
    {
        let mut actions: Vec<Action> = Vec::new();
        actions.push(Action::Start(Task::WatchLine));
        actions.push(Action::Start(Task::FollowLine));
        (FollowingLine {  }, actions)
    }
}

/// Puts `message` to the mission whose state is `current`: the state becomes
/// what the table names. The result is what to tell an observer of the new
/// state, and what the transition asks for.
pub fn apply(
    current: &mut Task3DroneState,
    message: Task3DroneStateMessages,
) -> (step: (DroneStatus, Vec<Action>))
    ensures
        *final(current) == old(current).next(message),
        step.0.state@ == old(current).next(message).description(),
        step.0.is_error == (old(current).next(message) is Error),
        step.1@ == old(current).actions(message),
{
    let (next, actions) = get_drone_state(current).execute(message);
    let status = set_drone_state(current, next);
    (status, actions)
}

/// Once in `Error`, the mission stays there and asks for nothing.
pub proof fn lemma_error_is_final(message: Task3DroneStateMessages)
    ensures
        Task3DroneState::Error.next(message) == Task3DroneState::Error,
        Task3DroneState::Error.actions(message) == Seq::<Action>::empty(),
{
}

/// The point on the floor below `point`.
pub open spec fn on_floor(point: Point) -> Point {
    Point { x: point.x, y: point.y, z: 0 }
}

/// Whether a point of the line `poses` is nearer to `point` than the least
/// spacing of the line.
pub open spec fn line_has_point(poses: Seq<Pose>, point: Point) -> bool {
    exists|i: int|
        0 <= i < poses.len() && squared_distance((#[trigger] poses[i]).position, point)
            < MIN_POINT_SPACING * MIN_POINT_SPACING
}

/// The line `poses` after a point of the line has been made out at `pose`,
/// with the vehicle at `drone_position`; heights do not count. The first
/// point begins the line. The second point is put behind the first if it is
/// farther from the vehicle than the first, and before it otherwise. Every
/// further point is added at the end, provided that it leads on from the
/// last two points, is near enough to the vehicle and keeps the spacing
/// from every point of the line; otherwise the line stays as it is.
pub open spec fn line_after(poses: Seq<Pose>, drone_position: Point, pose: Pose) -> Seq<Pose> {
    let drone = on_floor(drone_position);
    let found = Pose { position: on_floor(pose.position), orientation: pose.orientation };
    if poses.len() == 0 {
        poses.push(found)
    } else if poses.len() == 1 {
        if squared_distance(drone, poses[0].position) < squared_distance(drone, found.position) {
            poses.push(found)
        } else {
            poses.insert(0, found)
        }
    } else if similar_orientation(
        poses[poses.len() - 2].position,
        poses[poses.len() - 1].position,
        found.position,
    ) && squared_distance(drone, found.position) < MAX_POINT_DISTANCE * MAX_POINT_DISTANCE
        && !line_has_point(poses, found.position) {
        poses.push(found)
    } else {
        poses
    }
}

/// Adds `pose` at the end of the line.
pub fn add_pose(poses: &mut Vec<Pose>, pose: Pose)
    ensures
        final(poses)@ == old(poses)@.push(pose),
{
    poses.push(pose);
}

/// Adds `pose` at the beginning of the line.
pub fn add_start_pose(poses: &mut Vec<Pose>, pose: Pose)
    ensures
        final(poses)@ == old(poses)@.insert(0, pose),
{
    poses.insert(0, pose);
}

/// How many points the line has.
pub fn get_poses_len(poses: &Vec<Pose>) -> (len: usize)
    ensures
        len == poses@.len(),
{
    poses.len()
}

/// The points of the line, from its beginning to its end.
pub fn get_poses(poses: &Vec<Pose>) -> (copy: Vec<Pose>)
    ensures
        copy@ == poses@,
{
    let mut copy: Vec<Pose> = Vec::new();
    let mut index: usize = 0;
    while index < poses.len()
        invariant
            index <= poses.len(),
            copy@ == poses@.take(index as int),
        decreases poses.len() - index,
    {
        copy.push(poses[index]);
        index += 1;
    }
    copy
}

/// The last point of the line, if the line has a point.
pub fn get_last_pose(poses: &Vec<Pose>) -> (last: Option<Pose>)
    ensures
        last == if poses@.len() >= 1 {
            Some(poses@[poses@.len() - 1])
        } else {
            None
        },
{
    if poses.len() >= 1 {
        Some(poses[poses.len() - 1])
    } else {
        None
    }
}

/// The last point but one of the line, if the line has two points.
pub fn get_previous_pose(poses: &Vec<Pose>) -> (previous: Option<Pose>)
    ensures
        previous == if poses@.len() >= 2 {
            Some(poses@[poses@.len() - 2])
        } else {
            None
        },
{
    if poses.len() >= 2 {
        Some(poses[poses.len() - 2])
    } else {
        None
    }
}

/// Whether two points are less than `distance` millimetres apart.
fn are_points_nearer_than(point1: &Point, point2: &Point, distance: u32) -> (nearer: bool)
    ensures
        nearer == (squared_distance(*point1, *point2) < distance * distance),
{
    assert(0 <= distance * distance <= 0xFFFF_FFFF * 0xFFFF_FFFF) by (nonlinear_arith)
        requires
            0 <= distance <= 0xFFFF_FFFF,
    ;
    get_squared_distance_between_points(point1, point2) < (distance as u128) * (distance as u128)
}

/// Whether a point of the line is nearer to `point` than the least spacing
/// of the line.
pub fn has_point(poses: &Vec<Pose>, point: &Point) -> (has: bool)
    ensures
        has == line_has_point(poses@, *point),
{
    let mut index: usize = 0;
    while index < poses.len()
        invariant
            index <= poses.len(),
            forall|i: int|
                0 <= i < index ==> squared_distance((#[trigger] poses[i]).position, *point)
                    >= MIN_POINT_SPACING * MIN_POINT_SPACING,
        decreases poses.len() - index,
    {
        if are_points_nearer_than(&poses[index].position, point, MIN_POINT_SPACING) {
            return true;
        }
        index += 1;
    }
    false
}

/// Takes in a point of the line that has been made out at `pose`, with the
/// vehicle at `drone_position`.
pub fn take_in_line_point(poses: &mut Vec<Pose>, drone_position: &Point, pose: Pose)
    ensures
        final(poses)@ == line_after(old(poses)@, *drone_position, pose),
{
    let drone = Point { x: drone_position.x, y: drone_position.y, z: 0 };
    let found = Pose {
        position: Point { x: pose.position.x, y: pose.position.y, z: 0 },
        orientation: pose.orientation,
    };
    if get_poses_len(poses) == 0 {
        add_pose(poses, found);
        return ;
    }
    if get_poses_len(poses) == 1 {
        let last_point = poses[0].position;
        if get_squared_distance_between_points(&drone, &last_point)
            < get_squared_distance_between_points(&drone, &found.position) {
            add_pose(poses, found);
        } else {
            add_start_pose(poses, found);
        }
        return ;
    }
    let previous_pose = poses[poses.len() - 2];
    let last_pose = poses[poses.len() - 1];
    if has_similar_orientation(&previous_pose.position, &last_pose.position, &found.position)
        && are_points_nearer_than(&drone, &found.position, MAX_POINT_DISTANCE) && !has_point(
        poses,
        &found.position,
    ) {
        add_pose(poses, found);
    }
}

/// The direction from `from` to `to`, each component as near to the
/// difference of the coordinates as a component can be.
pub open spec fn direction_between(from: Point, to: Point) -> Vector3 {
    Vector3 {
        x: saturated(to.x - from.x) as i32,
        y: saturated(to.y - from.y) as i32,
        z: saturated(to.z - from.z) as i32,
    }
}

/// Where to steer for the point `index` of the line `poses`, with the
/// vehicle at `drone_position`: to the following altitude above the point,
/// facing from the vehicle to the point, heights not counting. There is
/// nowhere to steer where the line has no such point yet.
pub open spec fn setpoint(poses: Seq<Pose>, index: int, drone_position: Point) -> Option<Waypoint> {
    if 0 <= index < poses.len() {
        Some(
            Waypoint {
                position: Point {
                    x: poses[index].position.x,
                    y: poses[index].position.y,
                    z: FOLLOWING_ALTITUDE,
                },
                facing: facing_or_default(
                    direction_between(on_floor(drone_position), poses[index].position),
                ),
            },
        )
    } else {
        None
    }
}

/// The index of the point to steer for next: the following point once the
/// vehicle has come near enough to the point `index`, heights not counting
/// for the vehicle, and the same point until then.
pub open spec fn next_index(poses: Seq<Pose>, index: int, drone_position: Point) -> int {
    if 0 <= index < poses.len() && squared_distance(
        on_floor(drone_position),
        poses[index].position,
    ) <= REACHED_DISTANCE * REACHED_DISTANCE {
        index + 1
    } else {
        index
    }
}

/// The component of a direction that is nearest to the difference of two
/// coordinates.
fn component_between(from: i32, to: i32) -> (component: i32)
    ensures
        component == saturated(to - from),
{
    let difference: i64 = (to as i64) - (from as i64);
    if difference < i32::MIN as i64 {
        i32::MIN
    } else if difference > i32::MAX as i64 {
        i32::MAX
    } else {
        difference as i32
    }
}

/// One step of steering along the line `poses` towards its point `index`,
/// with the vehicle at `drone_position`: where to steer, and the index of the
/// point to steer for at the next step.
pub fn follow_line(
    poses: &Vec<Pose>,
    index: usize,
    drone_position: &Point,
) -> (step: (Option<Waypoint>, usize))
    ensures
        step.0 == setpoint(poses@, index as int, *drone_position),
        step.1 == next_index(poses@, index as int, *drone_position),
{
    if index >= poses.len() {
        return (None, index);
    }
    let drone = Point { x: drone_position.x, y: drone_position.y, z: 0 };
    let target = poses[index].position;
    let direction = Vector3 {
        x: component_between(drone.x, target.x),
        y: component_between(drone.y, target.y),
        z: component_between(drone.z, target.z),
    };
    let facing = if direction.x == 0 && direction.y == 0 && direction.z == 0 {
        Vector3 { x: AXIS_UNIT, y: 0, z: 0 }
    } else {
        direction
    };
    let goal = Waypoint {
        position: Point { x: target.x, y: target.y, z: FOLLOWING_ALTITUDE },
        facing,
    };
    let reached = get_squared_distance_between_points(&drone, &target) <= (REACHED_DISTANCE as u128)
        * (REACHED_DISTANCE as u128);
    if reached {
        (Some(goal), index + 1)
    } else {
        (Some(goal), index)
    }
}

} // verus!
