use task_manager::geometry::{
    are_points_opposite, are_points_within_distance, default_point, default_point_stamped,
    default_quaternion, fix_hole, get_distance_between_point_and_plane,
    get_distance_between_points, get_entry_in_hole, get_orientation_towards_point, get_plane,
    get_plane_value,
    get_signed_distance_between_point_and_plane, get_squared_distance_between_points,
    has_similar_orientation, is_point_far_from_plane, is_point_near_plane, new_header, new_point,
    new_point_stamped, same_side,
};
use task_manager::msgs::{
    DetectedObject, Orientation, Point, Pose, Vector3, Waypoint, AXIS_UNIT,
};

fn vector(x: i32, y: i32, z: i32) -> Vector3 {
    Vector3 { x, y, z }
}

fn facing_y() -> Orientation {
    // The local x axis points along the map's y axis.
    Orientation::new(vector(0, AXIS_UNIT, 0), vector(-AXIS_UNIT, 0, 0), vector(0, 0, AXIS_UNIT))
        .unwrap()
}

fn tilted() -> Orientation {
    // A local x axis with three components: (0.6, 0, 0.8).
    Orientation::new(
        vector(600_000, 0, 800_000),
        vector(0, AXIS_UNIT, 0),
        vector(-800_000, 0, 600_000),
    )
    .unwrap()
}

fn doubled() -> Orientation {
    // Axes of length two: not unit vectors, but admitted.
    Orientation::new(vector(2, 0, 0), vector(0, 2, 0), vector(0, 0, 2)).unwrap()
}

fn hole_at(position: Point, orientation: Orientation) -> DetectedObject {
    DetectedObject { id: 7, pose: Pose { position, orientation }, dimensions: vector(50, 1000, 2000) }
}

#[test]
fn orientation_refuses_an_axis_longer_than_a_unit() {
    assert!(Orientation::new(
        vector(AXIS_UNIT + 1, 0, 0),
        vector(0, AXIS_UNIT, 0),
        vector(0, 0, AXIS_UNIT)
    )
    .is_none());
    assert!(Orientation::new(
        vector(AXIS_UNIT, 0, 0),
        vector(0, -AXIS_UNIT - 1, 0),
        vector(0, 0, AXIS_UNIT)
    )
    .is_none());
    let made = Orientation::new(
        vector(-AXIS_UNIT, 0, 0),
        vector(0, AXIS_UNIT, 0),
        vector(0, 0, -AXIS_UNIT),
    )
    .unwrap();
    assert_eq!(made.x_axis(), vector(-AXIS_UNIT, 0, 0));
    assert_eq!(made.y_axis(), vector(0, AXIS_UNIT, 0));
    assert_eq!(made.z_axis(), vector(0, 0, -AXIS_UNIT));
    assert!(vector(AXIS_UNIT, -AXIS_UNIT, 0).fits_axis());
    assert!(!vector(0, 0, i32::MIN).fits_axis());
}

#[test]
fn identity_orientation_has_the_axes_of_the_map() {
    let identity = default_quaternion();
    assert_eq!(identity, Orientation::identity());
    assert_eq!(identity.x_axis(), vector(AXIS_UNIT, 0, 0));
    assert_eq!(identity.y_axis(), vector(0, AXIS_UNIT, 0));
    assert_eq!(identity.z_axis(), vector(0, 0, AXIS_UNIT));
}

#[test]
fn plane_coefficients_come_from_center_and_local_x_axis() {
    let plane = get_plane(&new_point(2000, 0, 1500), &default_quaternion());
    assert_eq!(plane.coefficients(), (AXIS_UNIT, 0, 0, -2_000_000_000));
    let plane = get_plane(&new_point(100, -200, 300), &tilted());
    assert_eq!(plane.coefficients(), (600_000, 0, 800_000, -(60_000_000 + 240_000_000)));
}

#[test]
fn plane_contains_its_center() {
    let centers = [
        new_point(0, 0, 0),
        new_point(2000, 0, 1500),
        new_point(-123_456, 654_321, -42),
        new_point(i32::MAX, i32::MIN, i32::MAX),
    ];
    let orientations = [default_quaternion(), facing_y(), tilted(), doubled()];
    for center in centers.iter() {
        for orientation in orientations.iter() {
            let plane = get_plane(center, orientation);
            assert_eq!(get_plane_value(center, &plane), 0);
            assert_eq!(get_signed_distance_between_point_and_plane(center, &plane), 0);
            assert_eq!(get_distance_between_point_and_plane(center, &plane), 0);
        }
    }
}

#[test]
fn distance_to_a_plane_is_in_millimetres() {
    let plane = get_plane(&new_point(2000, 0, 1500), &default_quaternion());
    assert_eq!(get_signed_distance_between_point_and_plane(&new_point(2400, 50, 0), &plane), 400);
    assert_eq!(get_signed_distance_between_point_and_plane(&new_point(1800, 0, 1500), &plane), -200);
    assert_eq!(get_distance_between_point_and_plane(&new_point(1800, 0, 1500), &plane), 200);
    assert_eq!(get_distance_between_point_and_plane(&new_point(2400, 50, 0), &plane), 400);
    let plane = get_plane(&new_point(0, 0, 0), &tilted());
    // 0.6 * 1000 + 0.8 * 500 = 1000 mm.
    assert_eq!(get_signed_distance_between_point_and_plane(&new_point(1000, 77, 500), &plane), 1000);
    assert_eq!(get_distance_between_point_and_plane(&new_point(-1000, 77, -500), &plane), 1000);
}

#[test]
fn distance_to_a_plane_ignores_the_length_of_the_normal() {
    // The plane x = 2000, with a normal of length two.
    let plane = get_plane(&new_point(2000, 0, 0), &doubled());
    assert_eq!(plane.coefficients(), (2, 0, 0, -4000));
    assert_eq!(get_plane_value(&new_point(3000, 0, 0), &plane), 2000);
    assert_eq!(get_distance_between_point_and_plane(&new_point(3000, 0, 0), &plane), 1000);
    assert_eq!(get_signed_distance_between_point_and_plane(&new_point(3000, 0, 0), &plane), 1000);
    assert_eq!(get_signed_distance_between_point_and_plane(&new_point(500, 9, 9), &plane), -1500);
    let unit = get_plane(&new_point(2000, 0, 0), &default_quaternion());
    for x in [-7000, 0, 1999, 2000, 2001, 3000, 123_456].iter() {
        let point = new_point(*x, 5, -5);
        assert_eq!(
            get_signed_distance_between_point_and_plane(&point, &plane),
            get_signed_distance_between_point_and_plane(&point, &unit)
        );
    }
}

#[test]
fn distance_to_a_plane_is_rounded_down() {
    let diagonal = Orientation::new(vector(1, 1, 0), vector(-1, 1, 0), vector(0, 0, 1)).unwrap();
    let plane = get_plane(&new_point(0, 0, 0), &diagonal);
    // 1000 / sqrt(2) = 707.1
    assert_eq!(get_distance_between_point_and_plane(&new_point(1000, 0, 0), &plane), 707);
    assert_eq!(get_signed_distance_between_point_and_plane(&new_point(0, -1000, 9), &plane), -707);
    // 1 / sqrt(2) = 0.7
    assert_eq!(get_distance_between_point_and_plane(&new_point(1, 0, 0), &plane), 0);
    assert_eq!(get_signed_distance_between_point_and_plane(&new_point(-1, 0, 0), &plane), 0);
    assert_eq!(get_distance_between_point_and_plane(&new_point(1, 1, 0), &plane), 1);
}

#[test]
fn plane_without_a_normal_passes_through_every_point() {
    let flat = Orientation::new(vector(0, 0, 0), vector(0, 1, 0), vector(0, 0, 1)).unwrap();
    let plane = get_plane(&new_point(2000, 0, 0), &flat);
    assert_eq!(plane.coefficients(), (0, 0, 0, 0));
    assert_eq!(get_distance_between_point_and_plane(&new_point(9000, 1, 2), &plane), 0);
    assert_eq!(get_signed_distance_between_point_and_plane(&new_point(-9000, 1, 2), &plane), 0);
}

#[test]
fn plane_value_is_the_left_side_of_the_equation() {
    let plane = get_plane(&new_point(2000, 0, 1500), &default_quaternion());
    assert_eq!(get_plane_value(&new_point(2400, 50, 0), &plane), 400_000_000);
    assert_eq!(get_plane_value(&new_point(1800, 0, 1500), &plane), -200_000_000);
    let plane = get_plane(&new_point(0, 0, 0), &tilted());
    assert_eq!(get_plane_value(&new_point(1000, 77, 500), &plane), 1_000_000_000);
}

#[test]
fn distance_to_a_plane_holds_at_the_ends_of_the_coordinate_range() {
    let plane = get_plane(&new_point(i32::MIN, i32::MIN, i32::MIN), &tilted());
    let far = new_point(i32::MAX, i32::MAX, i32::MAX);
    let span = i32::MAX as i64 - i32::MIN as i64;
    assert_eq!(get_plane_value(&far, &plane), 1_400_000 * span);
    // 1.4 times the span of the coordinates.
    assert_eq!(get_signed_distance_between_point_and_plane(&far, &plane), 6_012_954_213);
    assert_eq!(get_distance_between_point_and_plane(&far, &plane), 6_012_954_213);
    assert!(is_point_far_from_plane(&far, &plane, u32::MAX));
    assert!(!is_point_near_plane(&far, &plane, u32::MAX));
}

#[test]
fn nearness_to_a_plane_includes_the_threshold() {
    let plane = get_plane(&new_point(2000, 0, 1500), &default_quaternion());
    assert!(is_point_near_plane(&new_point(1700, 0, 0), &plane, 300));
    assert!(!is_point_near_plane(&new_point(1699, 0, 0), &plane, 300));
    assert!(is_point_near_plane(&new_point(2300, 9, 9), &plane, 300));
    assert!(is_point_far_from_plane(&new_point(2300, 0, 0), &plane, 300));
    assert!(!is_point_far_from_plane(&new_point(2299, 0, 0), &plane, 300));
    assert!(is_point_far_from_plane(&new_point(2000, 0, 0), &plane, 0));
}

#[test]
fn same_side_follows_the_signs_of_the_distances() {
    let plane = get_plane(&new_point(2000, 0, 1500), &default_quaternion());
    let before = new_point(1800, 0, 1500);
    let also_before = new_point(-5000, 300, 0);
    let on = new_point(2000, 40, 0);
    let behind = new_point(2400, 0, 1500);
    let also_behind = new_point(2001, -70, 10);
    assert!(!same_side(&before, &behind, &plane));
    assert!(!same_side(&behind, &before, &plane));
    assert!(are_points_opposite(&before, &behind, &plane));
    assert!(are_points_opposite(&behind, &before, &plane));
    assert!(same_side(&before, &also_before, &plane));
    assert!(same_side(&behind, &also_behind, &plane));
    assert!(same_side(&also_behind, &behind, &plane));
    assert!(!are_points_opposite(&before, &also_before, &plane));
}

#[test]
fn a_point_on_the_plane_is_opposite_to_nothing() {
    let plane = get_plane(&new_point(2000, 0, 1500), &default_quaternion());
    let on = new_point(2000, 40, 0);
    assert!(same_side(&on, &new_point(2400, 0, 0), &plane));
    assert!(same_side(&new_point(1800, 0, 0), &on, &plane));
    assert!(same_side(&on, &on, &plane));
    assert!(!are_points_opposite(&on, &new_point(1800, 0, 0), &plane));
}

#[test]
fn distance_between_points_is_rounded_down() {
    assert_eq!(get_distance_between_points(&new_point(0, 0, 0), &new_point(3, 4, 0)), 5);
    assert_eq!(get_distance_between_points(&new_point(0, 0, 0), &new_point(1000, 1000, 0)), 1414);
    assert_eq!(get_distance_between_points(&new_point(1, 2, 3), &new_point(1, 2, 3)), 0);
    assert_eq!(get_distance_between_points(&new_point(0, 0, 0), &new_point(1, 1, 1)), 1);
    assert_eq!(get_distance_between_points(&new_point(-2, 0, 0), &new_point(0, 0, 2)), 2);
    assert_eq!(get_squared_distance_between_points(&new_point(1, 2, 3), &new_point(4, 6, 3)), 25);
}

#[test]
fn distance_between_the_corners_of_the_coordinate_range() {
    let low = new_point(i32::MIN, i32::MIN, i32::MIN);
    let high = new_point(i32::MAX, i32::MAX, i32::MAX);
    let side: u128 = 4_294_967_295;
    assert_eq!(get_squared_distance_between_points(&low, &high), 3 * side * side);
    // 7439101571 squared is the largest square below three times the squared side.
    assert_eq!(get_distance_between_points(&low, &high), 7_439_101_571);
    assert!(7_439_101_571u128 * 7_439_101_571 <= 3 * side * side);
    assert!(7_439_101_572u128 * 7_439_101_572 > 3 * side * side);
    assert!(!are_points_within_distance(&low, &high, u32::MAX));
}

#[test]
fn points_within_distance_include_the_threshold() {
    let origin = new_point(0, 0, 0);
    assert!(are_points_within_distance(&origin, &new_point(300, 400, 0), 500));
    assert!(!are_points_within_distance(&origin, &new_point(300, 400, 1), 500));
    assert!(are_points_within_distance(&origin, &origin, 0));
}

#[test]
fn entry_point_is_the_farther_candidate() {
    let hole = hole_at(new_point(0, 0, 0), default_quaternion());
    let entry = get_entry_in_hole(&hole, &new_point(1000, 0, 0), 300);
    assert_eq!(entry.position, new_point(-300, 0, 0));
    // From the entry the centre of the aperture lies along +x.
    assert_eq!(entry.facing, vector(AXIS_UNIT, 0, 0));
    let entry = get_entry_in_hole(&hole, &new_point(-1000, 0, 0), 300);
    assert_eq!(entry.position, new_point(300, 0, 0));
    assert_eq!(entry.facing, vector(-AXIS_UNIT, 0, 0));
}

#[test]
fn entry_point_of_equally_far_candidates_is_against_the_axis() {
    let hole = hole_at(new_point(0, 0, 0), default_quaternion());
    let entry = get_entry_in_hole(&hole, &new_point(0, 500, 0), 300);
    assert_eq!(
        entry,
        Waypoint { position: new_point(-300, 0, 0), facing: vector(AXIS_UNIT, 0, 0) }
    );
    let entry = get_entry_in_hole(&hole, &new_point(0, 0, 0), 0);
    assert_eq!(entry.position, new_point(0, 0, 0));
}

#[test]
fn entry_point_follows_the_local_x_axis() {
    let hole = hole_at(new_point(2000, 1000, 1500), facing_y());
    let entry = get_entry_in_hole(&hole, &new_point(2000, 0, 1500), 500);
    assert_eq!(entry.position, new_point(2000, 1500, 1500));
    assert_eq!(entry.facing, vector(0, -AXIS_UNIT, 0));
    let hole = hole_at(new_point(0, 0, 0), tilted());
    let entry = get_entry_in_hole(&hole, &new_point(5000, 0, 5000), 1000);
    assert_eq!(entry.position, new_point(-600, 0, -800));
    // Only the horizontal part of the axis tells where to face.
    assert_eq!(entry.facing, vector(600_000, 0, 0));
}

#[test]
fn entry_point_rounds_towards_the_center() {
    let hole = hole_at(new_point(0, 0, 0), tilted());
    // 0.6 * 4 = 2.4 and 0.8 * 4 = 3.2
    let entry = get_entry_in_hole(&hole, &new_point(100, 0, 100), 4);
    assert_eq!(entry.position, new_point(-2, 0, -3));
    let entry = get_entry_in_hole(&hole, &new_point(-100, 0, -100), 4);
    assert_eq!(entry.position, new_point(2, 0, 3));
}

#[test]
fn entry_point_of_a_vertical_axis_faces_the_default_way() {
    let up = Orientation::new(
        vector(0, 0, AXIS_UNIT),
        vector(0, AXIS_UNIT, 0),
        vector(-AXIS_UNIT, 0, 0),
    )
    .unwrap();
    let hole = hole_at(new_point(0, 0, 1000), up);
    let entry = get_entry_in_hole(&hole, &new_point(0, 0, 3000), 300);
    assert_eq!(entry.position, new_point(0, 0, 700));
    assert_eq!(entry.facing, vector(AXIS_UNIT, 0, 0));
}

#[test]
fn entry_point_stops_at_the_end_of_the_coordinate_range() {
    let hole = hole_at(new_point(i32::MAX - 100, 0, 0), default_quaternion());
    let entry = get_entry_in_hole(&hole, &new_point(0, 0, 0), 300);
    assert_eq!(entry.position, new_point(i32::MAX, 0, 0));
    assert_eq!(entry.facing, vector(-AXIS_UNIT, 0, 0));
    let hole = hole_at(new_point(i32::MIN, 0, 0), default_quaternion());
    let entry = get_entry_in_hole(&hole, &new_point(0, 0, 0), u32::MAX);
    assert_eq!(entry.position, new_point(i32::MIN, 0, 0));
}

#[test]
fn orientation_towards_a_point_is_its_direction_from_the_origin() {
    assert_eq!(get_orientation_towards_point(&new_point(10, -20, 30)), vector(10, -20, 30));
    assert_eq!(get_orientation_towards_point(&new_point(0, 0, 5)), vector(0, 0, 5));
    assert_eq!(get_orientation_towards_point(&new_point(0, 0, 0)), vector(AXIS_UNIT, 0, 0));
}

#[test]
fn fix_hole_rotates_dimensions_and_orientation() {
    let mut hole = DetectedObject {
        id: 3,
        pose: Pose { position: new_point(1, 2, 3), orientation: default_quaternion() },
        dimensions: vector(1000, 2000, 50),
    };
    fix_hole(&mut hole);
    assert_eq!(hole.id, 3);
    assert_eq!(hole.pose.position, new_point(1, 2, 3));
    assert_eq!(hole.dimensions, vector(50, 1000, 2000));
    assert_eq!(hole.pose.orientation.x_axis(), vector(0, 0, -AXIS_UNIT));
    assert_eq!(hole.pose.orientation.y_axis(), vector(0, AXIS_UNIT, 0));
    assert_eq!(hole.pose.orientation.z_axis(), vector(AXIS_UNIT, 0, 0));
}

#[test]
fn fix_hole_four_times_gives_back_the_orientation() {
    let mut hole = hole_at(new_point(0, 0, 0), tilted());
    fix_hole(&mut hole);
    assert_eq!(hole.pose.orientation.x_axis(), vector(800_000, 0, -600_000));
    assert_eq!(hole.pose.orientation.z_axis(), vector(600_000, 0, 800_000));
    fix_hole(&mut hole);
    assert_eq!(hole.pose.orientation.x_axis(), vector(-600_000, 0, -800_000));
    fix_hole(&mut hole);
    fix_hole(&mut hole);
    assert_eq!(hole.pose.orientation, tilted());
    // The dimensions come back after three turns, not after four.
    assert_eq!(hole.dimensions, vector(2000, 50, 1000));
}

#[test]
fn rotated_about_y_leaves_the_original_untouched() {
    let before = facing_y();
    let turned = before.rotated_about_y();
    assert_eq!(before, facing_y());
    assert_eq!(turned.x_axis(), vector(0, 0, -AXIS_UNIT));
    assert_eq!(turned.y_axis(), vector(-AXIS_UNIT, 0, 0));
    assert_eq!(turned.z_axis(), vector(0, AXIS_UNIT, 0));
}

#[test]
fn similar_orientation_needs_a_step_forward() {
    let previous = new_point(0, 0, 0);
    let current = new_point(1000, 0, 0);
    assert!(has_similar_orientation(&previous, &current, &new_point(2000, 0, 0)));
    assert!(has_similar_orientation(&previous, &current, &new_point(1001, 5000, 0)));
    // Sideways and backwards do not lead on.
    assert!(!has_similar_orientation(&previous, &current, &new_point(1000, 700, 0)));
    assert!(!has_similar_orientation(&previous, &current, &new_point(500, 0, 0)));
    assert!(!has_similar_orientation(&previous, &current, &previous));
    // Without an earlier step there is no direction to keep.
    assert!(!has_similar_orientation(&current, &current, &new_point(2000, 0, 0)));
}

#[test]
fn similar_orientation_holds_at_the_ends_of_the_coordinate_range() {
    let previous = new_point(i32::MIN, i32::MIN, i32::MIN);
    let current = new_point(i32::MAX, i32::MAX, i32::MAX);
    assert!(!has_similar_orientation(&previous, &current, &previous));
    assert!(has_similar_orientation(&current, &new_point(0, 0, 0), &previous));
}

#[test]
fn default_values_are_the_origin() {
    assert_eq!(default_point(), Point { x: 0, y: 0, z: 0 });
    assert_eq!(new_point(1, -2, 3), Point { x: 1, y: -2, z: 3 });
    let stamped = default_point_stamped("map");
    assert_eq!(stamped.header.frame_id, "map");
    assert_eq!(stamped.header.seq, 0);
    assert_eq!(stamped.point, default_point());
    let stamped = new_point_stamped("base_link", 4, 5, 6);
    assert_eq!(stamped.header.frame_id, "base_link");
    assert_eq!(stamped.point, new_point(4, 5, 6));
    let header = new_header("");
    assert_eq!(header.frame_id, "");
    assert_eq!(header.seq, 0);
}
