use task_manager::geometry::{
    default_quaternion, get_plane, has_drone_flew_through_hole, new_point,
    DroneFlewThroughHoleResult, DroneFlewThroughHoleResultParams,
};
use task_manager::msgs::{Orientation, Point, Vector3, AXIS_UNIT};

fn begin(center: Point, arming: u32, completion: u32, vehicle: Point) -> DroneFlewThroughHoleResult {
    has_drone_flew_through_hole(DroneFlewThroughHoleResultParams::New {
        hole_position: &center,
        hole_orientation: &default_quaternion(),
        flying_into_hole_pass_distance: arming,
        drone_position: &vehicle,
        flying_into_hole_detection_pass_distance: completion,
    })
}

fn update(previous: DroneFlewThroughHoleResult, vehicle: Point) -> DroneFlewThroughHoleResult {
    has_drone_flew_through_hole(DroneFlewThroughHoleResultParams::PreviousResult {
        previous_result: previous,
        drone_position: &vehicle,
    })
}

#[test]
fn transit_through_an_aperture_end_to_end() {
    let center = new_point(2000, 0, 1500);
    let state = begin(center, 300, 300, new_point(1800, 0, 1500));
    assert!(!state.flew_through());
    assert_eq!(state.start_point(), Some(new_point(1800, 0, 1500)));
    let state = update(state, new_point(2000, 0, 1500));
    assert!(!state.flew_through());
    let state = update(state, new_point(2400, 0, 1500));
    assert!(state.flew_through());
    assert_eq!(state.start_point(), Some(new_point(1800, 0, 1500)));
}

#[test]
fn detector_arms_only_near_the_plane() {
    let center = new_point(0, 0, 0);
    let state = begin(center, 300, 300, new_point(-500, 0, 0));
    assert_eq!(state.start_point(), None);
    assert!(!state.flew_through());
    let state = update(state, new_point(-200, 0, 0));
    assert_eq!(state.start_point(), Some(new_point(-200, 0, 0)));
    assert!(!state.flew_through());
    let state = update(state, new_point(300, 0, 0));
    assert!(state.flew_through());
}

#[test]
fn detector_arms_at_the_arming_distance_itself() {
    let state = begin(new_point(0, 0, 0), 300, 300, new_point(300, 10, 20));
    assert_eq!(state.start_point(), Some(new_point(300, 10, 20)));
    let state = begin(new_point(0, 0, 0), 300, 300, new_point(301, 10, 20));
    assert_eq!(state.start_point(), None);
}

#[test]
fn unarmed_detector_never_reports_a_transit() {
    let mut state = begin(new_point(0, 0, 0), 300, 300, new_point(-5000, 0, 0));
    for x in [-4000, 4000, -400, 400, 301, -301].iter() {
        state = update(state, new_point(*x, 0, 0));
        assert_eq!(state.start_point(), None);
        assert!(!state.flew_through());
    }
}

#[test]
fn transit_needs_the_completion_distance_on_the_far_side() {
    let state = begin(new_point(0, 0, 0), 300, 300, new_point(-100, 0, 0));
    assert!(!update(state, new_point(299, 0, 0)).flew_through());
    assert!(update(state, new_point(300, 0, 0)).flew_through());
    // Far away on the side of the start point is no transit.
    assert!(!update(state, new_point(-3000, 0, 0)).flew_through());
    // Nor is a position on the plane.
    assert!(!update(state, new_point(0, 900, 0)).flew_through());
}

#[test]
fn transit_counts_in_either_direction() {
    let state = begin(new_point(0, 0, 0), 300, 300, new_point(250, 0, 0));
    assert_eq!(state.start_point(), Some(new_point(250, 0, 0)));
    assert!(update(state, new_point(-300, 0, 0)).flew_through());
    assert!(!update(state, new_point(300, 0, 0)).flew_through());
}

#[test]
fn start_point_on_the_plane_is_never_left_behind() {
    let state = begin(new_point(0, 0, 0), 300, 300, new_point(0, 0, 0));
    assert_eq!(state.start_point(), Some(new_point(0, 0, 0)));
    assert!(!update(state, new_point(1000, 0, 0)).flew_through());
    assert!(!update(state, new_point(-1000, 0, 0)).flew_through());
}

#[test]
fn start_point_is_permanent() {
    let state = begin(new_point(0, 0, 0), 300, 300, new_point(-200, 0, 0));
    let state = update(state, new_point(-100, 0, 0));
    assert_eq!(state.start_point(), Some(new_point(-200, 0, 0)));
    let state = update(state, new_point(100, 0, 0));
    assert_eq!(state.start_point(), Some(new_point(-200, 0, 0)));
    let state = update(state, new_point(-9000, 0, 0));
    assert_eq!(state.start_point(), Some(new_point(-200, 0, 0)));
}

#[test]
fn completed_transit_stays_completed() {
    let state = begin(new_point(0, 0, 0), 300, 300, new_point(-200, 0, 0));
    let mut state = update(state, new_point(400, 0, 0));
    assert!(state.flew_through());
    for position in [
        new_point(-200, 0, 0),
        new_point(0, 0, 0),
        new_point(-4000, 0, 0),
        new_point(100, 100, 100),
        new_point(i32::MIN, i32::MAX, 0),
    ]
    .iter()
    {
        state = update(state, *position);
        assert!(state.flew_through());
        assert_eq!(state.start_point(), Some(new_point(-200, 0, 0)));
    }
}

#[test]
fn begin_and_update_are_what_the_dispatcher_calls() {
    let center = new_point(2000, 0, 1500);
    let direct = DroneFlewThroughHoleResult::begin(
        &center,
        &default_quaternion(),
        300,
        &new_point(1800, 0, 1500),
        300,
    );
    assert_eq!(direct.start_point(), Some(new_point(1800, 0, 1500)));
    assert_eq!(direct.plane(), get_plane(&center, &default_quaternion()));
    let direct = direct.update(&new_point(2400, 0, 1500));
    assert!(direct.flew_through());
}

#[test]
fn detector_uses_the_local_x_axis_as_normal() {
    let sideways = Orientation::new(
        Vector3 { x: 0, y: AXIS_UNIT, z: 0 },
        Vector3 { x: -AXIS_UNIT, y: 0, z: 0 },
        Vector3 { x: 0, y: 0, z: AXIS_UNIT },
    )
    .unwrap();
    let center = new_point(0, 1000, 0);
    let state = DroneFlewThroughHoleResult::begin(&center, &sideways, 300, &new_point(5000, 800, 0), 300);
    assert_eq!(state.start_point(), Some(new_point(5000, 800, 0)));
    // Moving along x does not cross a plane whose normal is y.
    assert!(!state.update(&new_point(-5000, 800, 0)).flew_through());
    assert!(state.update(&new_point(5000, 1300, 0)).flew_through());
}

#[test]
fn zero_distances_arm_on_the_plane_and_complete_just_behind_it() {
    let state = begin(new_point(0, 0, 0), 0, 0, new_point(-1, 0, 0));
    assert_eq!(state.start_point(), None);
    let state = begin(new_point(0, 0, 0), 1, 0, new_point(-1, 0, 0));
    assert!(update(state, new_point(1, 0, 0)).flew_through());
}
