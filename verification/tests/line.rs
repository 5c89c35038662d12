use task_manager::actions::{Action, Task};
use task_manager::geometry::{default_quaternion, new_point};
use task_manager::msgs::{Point, Pose, Vector3, Waypoint, AXIS_UNIT};
use task_manager::task3::commands::Start;
use task_manager::task3::drone_state::{
    get_drone_state, set_drone_state, FollowingLine, Task3DroneState, WaitingForCommand,
};
use task_manager::task3::transitions::{
    add_pose, add_start_pose, apply, follow_line, get_last_pose, get_poses, get_poses_len,
    get_previous_pose, has_point, take_in_line_point, Task3DroneStateMessages,
    FOLLOWING_ALTITUDE, MAX_POINT_DISTANCE, MIN_POINT_SPACING, REACHED_DISTANCE,
};

fn pose(x: i32, y: i32, z: i32) -> Pose {
    Pose { position: new_point(x, y, z), orientation: default_quaternion() }
}

fn positions(poses: &Vec<Pose>) -> Vec<Point> {
    poses.iter().map(|pose| pose.position).collect()
}

#[test]
fn third_mission_table() {
    let (state, actions) = Task3DroneState::waiting_for_command().on_start(Start {});
    assert_eq!(state, Task3DroneState::FollowingLine(FollowingLine {}));
    assert_eq!(
        actions,
        vec![Action::ReportStarted, Action::Start(Task::WatchLine), Action::Start(Task::FollowLine)]
    );
    assert_eq!(Task3DroneState::following_line().on_start(Start {}), (Task3DroneState::Error, vec![]));
    assert_eq!(Task3DroneState::error().on_start(Start {}), (Task3DroneState::Error, vec![]));
    assert_eq!(
        Task3DroneState::waiting_for_command().execute(Task3DroneStateMessages::Start(Start {})),
        Task3DroneState::waiting_for_command().on_start(Start {})
    );
    assert_eq!(WaitingForCommand {}.on_start(Start {}).0, FollowingLine {});
    assert_eq!(
        FollowingLine::new(),
        (FollowingLine {}, vec![Action::Start(Task::WatchLine), Action::Start(Task::FollowLine)])
    );
}

#[test]
fn status_of_each_state_of_the_third_mission() {
    let mut current = Task3DroneState::waiting_for_command();
    let expected = [
        (Task3DroneState::error(), "Drone state is invalid due to wrong transition!", true),
        (Task3DroneState::waiting_for_command(), "Drone is waiting for commands...", false),
        (Task3DroneState::following_line(), "Drone is following line...", false),
    ];
    for (state, text, is_error) in expected.iter() {
        let status = set_drone_state(&mut current, *state);
        assert_eq!(status.state, *text);
        assert_eq!(status.is_error, *is_error);
        assert_eq!(get_drone_state(&current), *state);
    }
}

#[test]
fn line_constants() {
    assert_eq!(MAX_POINT_DISTANCE, 3500);
    assert_eq!(MIN_POINT_SPACING, 500);
    assert_eq!(REACHED_DISTANCE, 200);
    assert_eq!(FOLLOWING_ALTITUDE, 1000);
}

#[test]
fn line_buffer() {
    let mut poses: Vec<Pose> = vec![];
    assert_eq!(get_poses_len(&poses), 0);
    assert_eq!(get_last_pose(&poses), None);
    assert_eq!(get_previous_pose(&poses), None);
    add_pose(&mut poses, pose(1, 0, 0));
    assert_eq!(get_last_pose(&poses), Some(pose(1, 0, 0)));
    assert_eq!(get_previous_pose(&poses), None);
    add_pose(&mut poses, pose(2, 0, 0));
    add_start_pose(&mut poses, pose(0, 0, 0));
    assert_eq!(get_poses_len(&poses), 3);
    assert_eq!(get_poses(&poses), vec![pose(0, 0, 0), pose(1, 0, 0), pose(2, 0, 0)]);
    assert_eq!(get_last_pose(&poses), Some(pose(2, 0, 0)));
    assert_eq!(get_previous_pose(&poses), Some(pose(1, 0, 0)));
}

#[test]
fn line_has_a_point_nearer_than_the_spacing() {
    let poses = vec![pose(0, 0, 0), pose(1000, 0, 0)];
    assert!(has_point(&poses, &new_point(1000, 499, 0)));
    assert!(!has_point(&poses, &new_point(1000, 500, 0)));
    assert!(has_point(&poses, &new_point(-300, -300, 0)));
    assert!(!has_point(&poses, &new_point(500, 0, 10)));
    assert!(!has_point(&vec![], &new_point(0, 0, 0)));
}

#[test]
fn first_point_begins_the_line_on_the_floor() {
    let mut poses: Vec<Pose> = vec![];
    take_in_line_point(&mut poses, &new_point(0, 0, 1000), pose(500, 0, 30));
    assert_eq!(poses, vec![pose(500, 0, 0)]);
}

#[test]
fn second_point_goes_behind_or_before_the_first() {
    let drone = new_point(0, 0, 1000);
    let mut poses = vec![pose(500, 0, 0)];
    take_in_line_point(&mut poses, &drone, pose(1500, 0, 77));
    assert_eq!(positions(&poses), vec![new_point(500, 0, 0), new_point(1500, 0, 0)]);
    let mut poses = vec![pose(1500, 0, 0)];
    take_in_line_point(&mut poses, &drone, pose(500, 0, 0));
    assert_eq!(positions(&poses), vec![new_point(500, 0, 0), new_point(1500, 0, 0)]);
    // A point as far from the vehicle as the first goes before it.
    let mut poses = vec![pose(500, 0, 0)];
    take_in_line_point(&mut poses, &drone, pose(0, 500, 0));
    assert_eq!(positions(&poses), vec![new_point(0, 500, 0), new_point(500, 0, 0)]);
}

#[test]
fn further_points_must_lead_on_near_the_vehicle_and_keep_the_spacing() {
    let drone = new_point(0, 0, 1000);
    let line = vec![pose(0, 0, 0), pose(1000, 0, 0)];
    let mut poses = line.clone();
    take_in_line_point(&mut poses, &drone, pose(2000, 300, 500));
    assert_eq!(positions(&poses), vec![new_point(0, 0, 0), new_point(1000, 0, 0), new_point(2000, 300, 0)]);
    // Backwards.
    let mut poses = line.clone();
    take_in_line_point(&mut poses, &drone, pose(-1000, 0, 0));
    assert_eq!(poses, line);
    // Too near to a point of the line.
    let mut poses = line.clone();
    take_in_line_point(&mut poses, &drone, pose(1400, 0, 0));
    assert_eq!(poses, line);
    let mut poses = line.clone();
    take_in_line_point(&mut poses, &drone, pose(1500, 0, 0));
    assert_eq!(poses.len(), 3);
    // Too far from the vehicle: 3500 mm is already too far.
    let mut poses = line.clone();
    take_in_line_point(&mut poses, &drone, pose(3500, 0, 0));
    assert_eq!(poses, line);
    let mut poses = line.clone();
    take_in_line_point(&mut poses, &drone, pose(3499, 0, 0));
    assert_eq!(poses.len(), 3);
    // The height of the vehicle does not count.
    let mut poses = line.clone();
    take_in_line_point(&mut poses, &new_point(0, 0, 90_000), pose(3499, 0, 0));
    assert_eq!(poses.len(), 3);
}

#[test]
fn steering_heads_for_the_point_at_the_following_altitude() {
    let poses = vec![pose(1000, 0, 0), pose(2000, 1000, 0)];
    let (goal, index) = follow_line(&poses, 0, &new_point(0, 0, 1200));
    assert_eq!(
        goal,
        Some(Waypoint { position: new_point(1000, 0, 1000), facing: Vector3 { x: 1000, y: 0, z: 0 } })
    );
    assert_eq!(index, 0);
    let (goal, index) = follow_line(&poses, 1, &new_point(1000, 0, 1200));
    assert_eq!(
        goal,
        Some(Waypoint { position: new_point(2000, 1000, 1000), facing: Vector3 { x: 1000, y: 1000, z: 0 } })
    );
    assert_eq!(index, 1);
}

#[test]
fn steering_turns_to_the_next_point_once_near() {
    let poses = vec![pose(1000, 0, 0), pose(2000, 0, 0)];
    let (goal, index) = follow_line(&poses, 0, &new_point(800, 0, 5000));
    assert_eq!(index, 1);
    assert_eq!(goal.unwrap().position, new_point(1000, 0, 1000));
    let (_, index) = follow_line(&poses, 0, &new_point(799, 0, 0));
    assert_eq!(index, 0);
    // Right above the point there is no direction to face: the default is taken.
    let (goal, index) = follow_line(&poses, 1, &new_point(2000, 0, 1000));
    assert_eq!(goal.unwrap().facing, Vector3 { x: AXIS_UNIT, y: 0, z: 0 });
    assert_eq!(index, 2);
}

#[test]
fn steering_waits_where_the_line_has_no_point_yet() {
    let poses = vec![pose(1000, 0, 0)];
    assert_eq!(follow_line(&poses, 1, &new_point(0, 0, 0)), (None, 1));
    assert_eq!(follow_line(&vec![], 0, &new_point(0, 0, 0)), (None, 0));
    assert_eq!(follow_line(&poses, usize::MAX, &new_point(0, 0, 0)), (None, usize::MAX));
}

#[test]
fn steering_direction_stops_at_the_range_of_components() {
    let poses = vec![pose(i32::MAX, i32::MIN, 0)];
    let (goal, index) = follow_line(&poses, 0, &new_point(i32::MIN, i32::MAX, 0));
    assert_eq!(goal.unwrap().facing, Vector3 { x: i32::MAX, y: i32::MIN, z: 0 });
    assert_eq!(index, 0);
}

#[test]
fn applying_a_message_to_the_third_mission() {
    let mut current = Task3DroneState::waiting_for_command();
    let (status, actions) = apply(&mut current, Task3DroneStateMessages::Start(Start {}));
    assert_eq!(current, Task3DroneState::following_line());
    assert_eq!(status.state, "Drone is following line...");
    assert_eq!(actions.len(), 3);
    let (status, actions) = apply(&mut current, Task3DroneStateMessages::Start(Start {}));
    assert_eq!(current, Task3DroneState::Error);
    assert!(status.is_error);
    assert!(actions.is_empty());
}
