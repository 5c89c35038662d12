//! The geometry of an aperture: its plane, the side of the plane that a point
//! lies on, and the point from which to fly through it.

use vstd::prelude::*;
use vstd::string::StringExecFns;
use crate::msgs::{
    Axes, DetectedObject, Header, Orientation, Point, PointStamped, Vector3, Waypoint, AXIS_UNIT,
};

verus! {

/// The square of the distance between two points, in square millimetres.
pub open spec fn squared_distance(point1: Point, point2: Point) -> int {
    (point1.x - point2.x) * (point1.x - point2.x) + (point1.y - point2.y) * (point1.y - point2.y)
        + (point1.z - point2.z) * (point1.z - point2.z)
}

/// Whether `root` is the square root of `square`, rounded down.
pub open spec fn is_floor_root(root: int, square: int) -> bool {
    0 <= root && root * root <= square < (root + 1) * (root + 1)
}

/// The square of the difference of two coordinates.
fn squared_difference(x: i32, y: i32) -> (s: u128)
    ensures
        s == (x - y) * (x - y),
        s <= 0x1_0000_0000 * 0x1_0000_0000,
{
    let difference: i64 = (x as i64) - (y as i64);
    proof {
        lemma_product_bounds(difference as int, difference as int, 0x1_0000_0000, 0x1_0000_0000);
        assert(difference * difference >= 0) by (nonlinear_arith);
    }
    ((difference as i128) * (difference as i128)) as u128
}

/// The square of the distance between two points, in square millimetres.
pub fn get_squared_distance_between_points(point1: &Point, point2: &Point) -> (squared: u128)
    ensures
        squared == squared_distance(*point1, *point2),
        squared <= 3 * (0x1_0000_0000 * 0x1_0000_0000),
{
    squared_difference(point1.x, point2.x) + squared_difference(point1.y, point2.y)
        + squared_difference(point1.z, point2.z)
}

/// Whether two points are no more than `distance` millimetres apart.
pub fn are_points_within_distance(point1: &Point, point2: &Point, distance: u32) -> (within: bool)
    ensures
        within == (squared_distance(*point1, *point2) <= distance * distance),
{
    proof {
        lemma_product_bounds(distance as int, distance as int, 0x1_0000_0000, 0x1_0000_0000);
    }
    get_squared_distance_between_points(point1, point2) <= (distance as u128) * (distance as u128)
}

/// The square root of `square`, rounded down.
fn floor_root(square: u128) -> (root: u64)
    requires
        square < 0x4000_0000_0000_0000 * 0x4000_0000_0000_0000,
    ensures
        is_floor_root(root as int, square as int),
        root < 0x4000_0000_0000_0000,
{
    let mut low: u64 = 0;
    let mut high: u64 = 0x4000_0000_0000_0000;
    while high - low > 1
        invariant
            low < high <= 0x4000_0000_0000_0000,
            low * low <= square < high * high,
        decreases high - low,
    {
        let middle: u64 = low + (high - low) / 2;
        proof {
            lemma_product_bounds(
                middle as int,
                middle as int,
                0x4000_0000_0000_0000,
                0x4000_0000_0000_0000,
            );
        }
        if (middle as u128) * (middle as u128) <= square {
            low = middle;
        } else {
            high = middle;
        }
    }
    low
}

/// The distance between two points in whole millimetres, rounded down.
pub fn get_distance_between_points(point1: &Point, point2: &Point) -> (distance: u64)
    ensures
        is_floor_root(distance as int, squared_distance(*point1, *point2)),
{
    floor_root(get_squared_distance_between_points(point1, point2))
}

/// The plane `a*x + b*y + c*z + d = 0`.
pub struct PlaneModel {
    pub a: int,
    pub b: int,
    pub c: int,
    pub d: int,
}

impl PlaneModel {
    /// The plane through `point` that `normal` stands upright on.
    pub open spec fn through(point: Point, normal: Vector3) -> PlaneModel {
        PlaneModel {
            a: normal.x as int,
            b: normal.y as int,
            c: normal.z as int,
            d: -(normal.x * point.x + normal.y * point.y + normal.z * point.z),
        }
    }

    /// The plane of an aperture: it passes through the aperture's centre, and
    /// the aperture's local x axis is its normal.
    pub open spec fn of_aperture(center: Point, orientation: Axes) -> PlaneModel {
        PlaneModel::through(center, orientation.x_axis)
    }

    /// The left side of the plane's equation at `point`: the distance from
    /// the plane to the point, multiplied by the length of the plane's
    /// normal; positive on the side that the normal points to, negative on
    /// the other, zero on the plane.
    pub open spec fn value(self, point: Point) -> int {
        self.a * point.x + self.b * point.y + self.c * point.z + self.d
    }

    /// Whether `distance` is how far `point` is from the plane, in whole
    /// millimetres, rounded down. The length of the normal does not count:
    /// to multiply the four coefficients by one number changes nothing. A
    /// plane without a normal is taken to pass through every point.
    pub open spec fn is_distance(self, point: Point, distance: int) -> bool {
        if self.normal_squared() == 0 || self.value(point) == 0 {
            distance == 0
        } else {
            &&& 0 <= distance
            &&& distance * distance * self.normal_squared() <= self.value(point) * self.value(point)
            &&& self.value(point) * self.value(point) < (distance + 1) * (distance + 1)
                * self.normal_squared()
        }
    }

    /// Whether `distance` is how far `point` is from the plane, in whole
    /// millimetres, rounded towards zero, counted as positive on the side
    /// that the normal points to and as negative on the other.
    pub open spec fn is_signed_distance(self, point: Point, distance: int) -> bool {
        if self.value(point) >= 0 {
            self.is_distance(point, distance)
        } else {
            self.is_distance(point, -distance)
        }
    }

    /// The squared length of the plane's normal.
    pub open spec fn normal_squared(self) -> int {
        self.a * self.a + self.b * self.b + self.c * self.c
    }

    /// Whether `point` is no farther than `distance` from the plane.
    pub open spec fn is_within(self, point: Point, distance: int) -> bool {
        self.value(point) * self.value(point) <= distance * distance
            * self.normal_squared()
    }

    /// Whether `point` is at least `distance` away from the plane.
    pub open spec fn is_beyond(self, point: Point, distance: int) -> bool {
        self.value(point) * self.value(point) >= distance * distance
            * self.normal_squared()
    }

    /// Whether the plane passes strictly between the two points. A point on
    /// the plane is opposite to nothing.
    pub open spec fn are_opposite(self, point_1: Point, point_2: Point) -> bool {
        ||| self.value(point_1) > 0 && self.value(point_2) < 0
        ||| self.value(point_1) < 0 && self.value(point_2) > 0
    }

    /// Whether the plane does not pass strictly between the two points.
    pub open spec fn same_side(self, point_1: Point, point_2: Point) -> bool {
        !self.are_opposite(point_1, point_2)
    }
}

/// Most that the constant term of an aperture's plane can amount to.
pub open spec fn plane_offset_limit() -> int {
    3 * AXIS_UNIT * 0x8000_0000
}

/// The coefficients of an aperture's plane.
#[derive(Clone, Copy, Debug, PartialEq, Eq, Structural)]
pub struct PlaneEquation {
    a: i32,
    b: i32,
    c: i32,
    d: i64,
}

impl View for PlaneEquation {
    type V = PlaneModel;

    closed spec fn view(&self) -> PlaneModel {
        PlaneModel { a: self.a as int, b: self.b as int, c: self.c as int, d: self.d as int }
    }
}

impl PlaneEquation {
    #[verifier::type_invariant]
    closed spec fn bounded(self) -> bool {
        &&& -AXIS_UNIT <= self.a <= AXIS_UNIT
        &&& -AXIS_UNIT <= self.b <= AXIS_UNIT
        &&& -AXIS_UNIT <= self.c <= AXIS_UNIT
        &&& -plane_offset_limit() <= self.d <= plane_offset_limit()
    }

    /// The four coefficients, in the order a, b, c, d.
    pub fn coefficients(&self) -> (k: (i32, i32, i32, i64))
        ensures
            k.0 == self@.a,
            k.1 == self@.b,
            k.2 == self@.c,
            k.3 == self@.d,
    {
        (self.a, self.b, self.c, self.d)
    }
}

/// Bounds a product by the bounds of its factors.
proof fn lemma_product_bounds(x: int, y: int, bx: int, by: int)
    by (nonlinear_arith)
    requires
        -bx <= x <= bx,
        -by <= y <= by,
    ensures
        -(bx * by) <= x * y <= bx * by,
{
}

/// The product of two coordinates.
fn product(x: i32, y: i32) -> (p: i64)
    ensures
        p == x * y,
{
    proof {
        lemma_product_bounds(x as int, y as int, 0x8000_0000, 0x8000_0000);
    }
    (x as i64) * (y as i64)
}

/// The plane through `point` whose normal is the local x axis of `normal`.
pub fn get_plane(point: &Point, normal: &Orientation) -> (plane: PlaneEquation)
    ensures
        plane@ == PlaneModel::of_aperture(*point, normal@),
{
    let axis = normal.x_axis();
    proof {
        lemma_product_bounds(axis.x as int, point.x as int, AXIS_UNIT as int, 0x8000_0000);
        lemma_product_bounds(axis.y as int, point.y as int, AXIS_UNIT as int, 0x8000_0000);
        lemma_product_bounds(axis.z as int, point.z as int, AXIS_UNIT as int, 0x8000_0000);
    }
    let d: i64 = -(product(axis.x, point.x) + product(axis.y, point.y) + product(axis.z, point.z));
    PlaneEquation { a: axis.x, b: axis.y, c: axis.z, d }
}

/// Most that the left side of the equation of an aperture's plane can amount
/// to at a point.
pub open spec fn plane_value_limit() -> int {
    2 * plane_offset_limit()
}

/// The left side of the equation of `plane` at `point`: zero on the plane,
/// positive on the side that the normal points to, negative on the other.
pub fn get_plane_value(point: &Point, plane: &PlaneEquation) -> (value: i64)
    ensures
        value == plane@.value(*point),
        -plane_value_limit() <= value <= plane_value_limit(),
{
    proof {
        use_type_invariant(plane);
        lemma_product_bounds(plane.a as int, point.x as int, AXIS_UNIT as int, 0x8000_0000);
        lemma_product_bounds(plane.b as int, point.y as int, AXIS_UNIT as int, 0x8000_0000);
        lemma_product_bounds(plane.c as int, point.z as int, AXIS_UNIT as int, 0x8000_0000);
    }
    product(plane.a, point.x) + product(plane.b, point.y) + product(plane.c, point.z) + plane.d
}

/// The squared length of the normal of `plane`.
fn get_normal_squared(plane: &PlaneEquation) -> (squared: u128)
    ensures
        squared == plane@.normal_squared(),
        squared <= 3 * (AXIS_UNIT * AXIS_UNIT),
{
    proof {
        use_type_invariant(plane);
        lemma_product_bounds(plane.a as int, plane.a as int, AXIS_UNIT as int, AXIS_UNIT as int);
        lemma_product_bounds(plane.b as int, plane.b as int, AXIS_UNIT as int, AXIS_UNIT as int);
        lemma_product_bounds(plane.c as int, plane.c as int, AXIS_UNIT as int, AXIS_UNIT as int);
        assert(plane.a * plane.a >= 0 && plane.b * plane.b >= 0 && plane.c * plane.c >= 0)
            by (nonlinear_arith);
    }
    (product(plane.a, plane.a) as u128) + (product(plane.b, plane.b) as u128) + (product(
        plane.c,
        plane.c,
    ) as u128)
}

/// The root of a quotient of squares, rounded down, is the quotient of the
/// roots, rounded down.
proof fn lemma_root_of_quotient(value_squared: int, normal_squared: int, root: int)
    by (nonlinear_arith)
    requires
        0 <= value_squared,
        0 < normal_squared,
        is_floor_root(root, value_squared / normal_squared),
    ensures
        root * root * normal_squared <= value_squared < (root + 1) * (root + 1) * normal_squared,
{
    let quotient = value_squared / normal_squared;
    assert(quotient * normal_squared <= value_squared < (quotient + 1) * normal_squared);
    assert(root * root * normal_squared <= quotient * normal_squared);
    assert((quotient + 1) * normal_squared <= (root + 1) * (root + 1) * normal_squared);
}

/// How far `point` is from `plane`, in whole millimetres, rounded down. A
/// plane without a normal is taken to pass through every point.
pub fn get_distance_between_point_and_plane(point: &Point, plane: &PlaneEquation) -> (distance: u64)
    ensures
        plane@.is_distance(*point, distance as int),
        distance <= plane_value_limit(),
{
    let value = get_plane_value(point, plane);
    let normal_squared = get_normal_squared(plane);
    if normal_squared == 0 || value == 0 {
        return 0;
    }
    proof {
        assert(plane_value_limit() == 12_884_901_888_000_000);
        lemma_product_bounds(value as int, value as int, plane_value_limit(), plane_value_limit());
        assert(value * value >= 0) by (nonlinear_arith);
    }
    let value_squared: u128 = square(value) as u128;
    proof {
        assert(value_squared / normal_squared <= value_squared) by (nonlinear_arith)
            requires
                value_squared >= 0,
                normal_squared > 0,
        ;
    }
    let distance = floor_root(value_squared / normal_squared);
    proof {
        lemma_root_of_quotient(value_squared as int, normal_squared as int, distance as int);
        // The distance is no more than the value, for the normal has a length of one at least.
        assert(distance * distance <= value_squared) by (nonlinear_arith)
            requires
                distance * distance * normal_squared <= value_squared,
                normal_squared >= 1,
                distance >= 0,
        ;
        assert(distance <= plane_value_limit()) by (nonlinear_arith)
            requires
                distance * distance <= value_squared,
                value_squared <= plane_value_limit() * plane_value_limit(),
                distance >= 0,
                plane_value_limit() >= 0,
        ;
    }
    distance
}

/// Only one number is the distance from a plane to a point.
pub proof fn lemma_distance_is_unique(plane: PlaneModel, point: Point, first: int, second: int)
    requires
        plane.is_distance(point, first),
        plane.is_distance(point, second),
    ensures
        first == second,
{
    let squared = plane.value(point) * plane.value(point);
    let normal = plane.normal_squared();
    if normal != 0 && plane.value(point) != 0 {
        assert(normal > 0) by (nonlinear_arith)
            requires
                normal == plane.a * plane.a + plane.b * plane.b + plane.c * plane.c,
                normal != 0,
        ;
        assert(first == second) by (nonlinear_arith)
            requires
                normal > 0,
                0 <= first,
                0 <= second,
                first * first * normal <= squared < (first + 1) * (first + 1) * normal,
                second * second * normal <= squared < (second + 1) * (second + 1) * normal,
        {
            if first < second {
                assert((first + 1) * (first + 1) <= second * second);
                assert((first + 1) * (first + 1) * normal <= second * second * normal);
            }
            if second < first {
                assert((second + 1) * (second + 1) <= first * first);
                assert((second + 1) * (second + 1) * normal <= first * first * normal);
            }
        }
    }
}

/// The plane whose four coefficients are those of `plane`, each multiplied
/// by `factor`.
pub open spec fn scaled_plane(plane: PlaneModel, factor: int) -> PlaneModel {
    PlaneModel {
        a: plane.a * factor,
        b: plane.b * factor,
        c: plane.c * factor,
        d: plane.d * factor,
    }
}

/// The distance from a plane to a point does not change when the four
/// coefficients of the plane are multiplied by one number other than zero.
pub proof fn lemma_distance_ignores_scale(
    plane: PlaneModel,
    factor: int,
    point: Point,
    distance: int,
)
    requires
        factor != 0,
    ensures
        scaled_plane(plane, factor).is_distance(point, distance) == plane.is_distance(
            point,
            distance,
        ),
{
    let value = plane.value(point);
    let normal = plane.normal_squared();
    let scaled = scaled_plane(plane, factor);
    let square = factor * factor;
    lemma_scaled_equation(
        plane.a,
        plane.b,
        plane.c,
        plane.d,
        point.x as int,
        point.y as int,
        point.z as int,
        factor,
    );
    assert(square > 0) by (nonlinear_arith)
        requires
            square == factor * factor,
            factor != 0,
    ;
    assert((value * factor == 0) == (value == 0)) by (nonlinear_arith)
        requires
            factor != 0,
    ;
    assert((normal * square == 0) == (normal == 0)) by (nonlinear_arith)
        requires
            square > 0,
    ;
    assert(value * factor * (value * factor) == value * value * square) by (nonlinear_arith)
        requires
            square == factor * factor,
    ;
    lemma_scaled_bounds(distance * distance, normal, value * value, square);
    lemma_scaled_bounds((distance + 1) * (distance + 1), normal, value * value, square);
}

/// A factor may be taken out of a product, and out of a square as its
/// square.
proof fn lemma_factor_out(a: int, f: int, x: int)
    by (nonlinear_arith)
    ensures
        (a * f) * x == (a * x) * f,
        (a * f) * (a * f) == (a * a) * (f * f),
{
}

/// A factor may be taken out of a sum of four.
proof fn lemma_sum_times(p: int, q: int, r: int, d: int, f: int)
    by (nonlinear_arith)
    ensures
        p * f + q * f + r * f + d * f == (p + q + r + d) * f,
{
}

/// What the left side of an equation and the squared length of its normal
/// become when the coefficients are multiplied by `f`.
proof fn lemma_scaled_equation(a: int, b: int, c: int, d: int, x: int, y: int, z: int, f: int)
    ensures
        (a * f) * x + (b * f) * y + (c * f) * z + d * f == (a * x + b * y + c * z + d) * f,
        (a * f) * (a * f) + (b * f) * (b * f) + (c * f) * (c * f) == (a * a + b * b + c * c) * (f
            * f),
{
    lemma_factor_out(a, f, x);
    lemma_factor_out(b, f, y);
    lemma_factor_out(c, f, z);
    lemma_sum_times(a * x, b * y, c * z, d, f);
    lemma_sum_times(a * a, b * b, c * c, 0, f * f);
}

/// To multiply both sides of a comparison by one positive number changes
/// nothing.
proof fn lemma_scaled_bounds(bound: int, normal: int, squared: int, factor: int)
    by (nonlinear_arith)
    requires
        factor > 0,
    ensures
        (bound * (normal * factor) <= squared * factor) == (bound * normal <= squared),
        (squared * factor < bound * (normal * factor)) == (squared < bound * normal),
{
    assert(bound * (normal * factor) == (bound * normal) * factor);
}

/// How far `point` is from `plane`, in whole millimetres, rounded towards
/// zero: positive on the side that the normal points to, negative on the
/// other.
pub fn get_signed_distance_between_point_and_plane(
    point: &Point,
    plane: &PlaneEquation,
) -> (distance: i64)
    ensures
        plane@.is_signed_distance(*point, distance as int),
{
    let value = get_plane_value(point, plane);
    let distance = get_distance_between_point_and_plane(point, plane);
    if value >= 0 {
        distance as i64
    } else {
        -(distance as i64)
    }
}

/// The square of a scaled distance.
fn square(v: i64) -> (s: i128)
    ensures
        s == v * v,
{
    proof {
        lemma_product_bounds(v as int, v as int, 0x8000_0000_0000_0000, 0x8000_0000_0000_0000);
    }
    (v as i128) * (v as i128)
}

/// The square of `distance`, multiplied by the squared length of the normal
/// of `plane`.
fn scaled_square(distance: u32, plane: &PlaneEquation) -> (s: i128)
    ensures
        s == distance * distance * plane@.normal_squared(),
{
    let normal_squared: i128 = get_normal_squared(plane) as i128;
    proof {
        lemma_product_bounds(distance as int, distance as int, 0x1_0000_0000, 0x1_0000_0000);
    }
    let distance_squared: i128 = (distance as i128) * (distance as i128);
    proof {
        lemma_product_bounds(
            distance_squared as int,
            normal_squared as int,
            0x1_0000_0000int * 0x1_0000_0000int,
            3 * (AXIS_UNIT * AXIS_UNIT),
        );
    }
    distance_squared * normal_squared
}

/// Whether `point` is no farther than `distance` millimetres from `plane`.
pub fn is_point_near_plane(point: &Point, plane: &PlaneEquation, distance: u32) -> (near: bool)
    ensures
        near == plane@.is_within(*point, distance as int),
{
    square(get_plane_value(point, plane)) <= scaled_square(distance, plane)
}

/// Whether `point` is at least `distance` millimetres away from `plane`.
pub fn is_point_far_from_plane(point: &Point, plane: &PlaneEquation, distance: u32) -> (far: bool)
    ensures
        far == plane@.is_beyond(*point, distance as int),
{
    square(get_plane_value(point, plane)) >= scaled_square(distance, plane)
}

/// Whether `plane` passes strictly between `point_1` and `point_2`.
pub fn are_points_opposite(
    point_1: &Point,
    point_2: &Point,
    plane: &PlaneEquation,
) -> (opposite: bool)
    ensures
        opposite == plane@.are_opposite(*point_1, *point_2),
{
    let point_1_scalar = get_plane_value(point_1, plane);
    let point_2_scalar = get_plane_value(point_2, plane);
    (point_1_scalar > 0 && point_2_scalar < 0) || (point_1_scalar < 0 && point_2_scalar > 0)
}

/// Whether `point_1` and `point_2` lie on one side of `plane`. A point on the
/// plane lies on the same side as every point.
pub fn same_side(point_1: &Point, point_2: &Point, plane: &PlaneEquation) -> (same: bool)
    ensures
        same == plane@.same_side(*point_1, *point_2),
{
    !are_points_opposite(point_1, point_2, plane)
}

/// The plane of an aperture contains the aperture's centre, whatever the
/// centre and the orientation are.
pub proof fn lemma_plane_contains_center(center: Point, orientation: Axes)
    ensures
        PlaneModel::of_aperture(center, orientation).value(center) == 0,
{
}

/// Two points whose signed distances to a plane are both non-zero lie on the
/// same side exactly when the distances share their sign, and which of the
/// two points is named first makes no difference.
pub proof fn lemma_same_side_follows_signs(plane: PlaneModel, point_1: Point, point_2: Point)
    ensures
        plane.same_side(point_1, point_2) == plane.same_side(point_2, point_1),
        plane.value(point_1) > 0 && plane.value(point_2) < 0
            ==> !plane.same_side(point_1, point_2),
        plane.value(point_1) < 0 && plane.value(point_2) > 0
            ==> !plane.same_side(point_1, point_2),
        plane.value(point_1) > 0 && plane.value(point_2) > 0
            ==> plane.same_side(point_1, point_2),
        plane.value(point_1) < 0 && plane.value(point_2) < 0
            ==> plane.same_side(point_1, point_2),
        plane.value(point_1) == 0 || plane.value(point_2) == 0
            ==> plane.same_side(point_1, point_2),
{
}

/// What a transit detector knows after the positions it has been shown.
pub struct TransitModel {
    /// Whether the vehicle has flown through the aperture.
    pub flew_through: bool,
    /// Where the vehicle was when it was first seen near the aperture's
    /// plane, once it has been.
    pub start_point: Option<Point>,
    /// The plane of the aperture.
    pub plane: PlaneModel,
    /// The centre of the aperture.
    pub hole_center: Point,
    /// The orientation of the aperture: its local x axis is its normal.
    pub hole_orientation: Axes,
    /// Most that the vehicle may be away from the plane, in millimetres, for
    /// its position to become the start point.
    pub arming_distance: int,
    /// Least that the vehicle must be away from the plane, in millimetres and
    /// on the far side, for the transit to be complete.
    pub completion_distance: int,
}

impl TransitModel {
    /// The detector for a newly adopted aperture. It is armed at once where
    /// the vehicle is already near the plane.
    pub open spec fn begin(
        hole_position: Point,
        hole_orientation: Axes,
        arming_distance: int,
        drone_position: Point,
        completion_distance: int,
    ) -> TransitModel {
        let plane = PlaneModel::of_aperture(hole_position, hole_orientation);
        TransitModel {
            flew_through: false,
            start_point: if plane.is_within(drone_position, arming_distance) {
                Some(drone_position)
            } else {
                None
            },
            plane,
            hole_center: hole_position,
            hole_orientation,
            arming_distance,
            completion_distance,
        }
    }

    /// Whether a start point has been recorded.
    pub open spec fn is_armed(self) -> bool {
        self.start_point is Some
    }

    /// The start point after the vehicle has been seen at `drone_position`:
    /// the one recorded before, or else this position if it is near the plane.
    pub open spec fn start_point_after(self, drone_position: Point) -> Option<Point> {
        if self.start_point is None && self.plane.is_within(drone_position, self.arming_distance) {
            Some(drone_position)
        } else {
            self.start_point
        }
    }

    /// The detector after the vehicle has been seen at `drone_position`. A
    /// completed transit stays as it is. Otherwise the detector is armed if it
    /// can be, and an armed detector reports a transit exactly when the
    /// vehicle is strictly on the other side of the plane from the start
    /// point and at least the completion distance away from the plane.
    pub open spec fn update(self, drone_position: Point) -> TransitModel {
        if self.flew_through {
            self
        } else {
            match self.start_point_after(drone_position) {
                Some(start_point) => TransitModel {
                    flew_through: self.plane.are_opposite(start_point, drone_position)
                        && self.plane.is_beyond(drone_position, self.completion_distance),
                    start_point: Some(start_point),
                    ..self
                },
                None => self,
            }
        }
    }

    /// The detector after the vehicle has been seen at each of `positions` in
    /// turn.
    pub open spec fn after(self, positions: Seq<Point>) -> TransitModel
        decreases positions.len(),
    {
        if positions.len() == 0 {
            self
        } else {
            self.after(positions.drop_last()).update(positions.last())
        }
    }

    /// What holds of every detector that `begin` and `update` produce: the
    /// plane is that of the aperture, a start point lies within the arming
    /// distance of the plane, and only an armed detector reports a transit.
    pub open spec fn well_formed(self) -> bool {
        &&& self.plane == PlaneModel::of_aperture(self.hole_center, self.hole_orientation)
        &&& self.start_point matches Some(start_point) ==> self.plane.is_within(
            start_point,
            self.arming_distance,
        )
        &&& self.flew_through ==> self.is_armed()
    }
}

/// The state of a transit detector: what `has_drone_flew_through_hole`
/// returns and takes back. Every value of this type is well formed, as
/// [`TransitModel::well_formed`] says.
#[derive(Clone, Copy, Debug)]
pub struct DroneFlewThroughHoleResult {
    flew_through: bool,
    start_point: Option<Point>,
    plane_vector: PlaneEquation,
    hole_center: Point,
    hole_orientation: Orientation,
    flying_into_hole_pass_distance: u32,
    flying_into_hole_detection_pass_distance: u32,
}

impl View for DroneFlewThroughHoleResult {
    type V = TransitModel;

    closed spec fn view(&self) -> TransitModel {
        TransitModel {
            flew_through: self.flew_through,
            start_point: self.start_point,
            plane: self.plane_vector@,
            hole_center: self.hole_center,
            hole_orientation: self.hole_orientation@,
            arming_distance: self.flying_into_hole_pass_distance as int,
            completion_distance: self.flying_into_hole_detection_pass_distance as int,
        }
    }
}

impl DroneFlewThroughHoleResult {
    #[verifier::type_invariant]
    closed spec fn holds_together(self) -> bool {
        self@.well_formed()
    }

    /// Whether the vehicle has flown through the aperture.
    pub fn flew_through(&self) -> (flew_through: bool)
        ensures
            flew_through == self@.flew_through,
    {
        self.flew_through
    }

    /// The detector for the aperture at `hole_position`, turned as
    /// `hole_orientation` says, with the vehicle at `drone_position`.
    pub fn begin(
        hole_position: &Point,
        hole_orientation: &Orientation,
        arming_distance: u32,
        drone_position: &Point,
        completion_distance: u32,
    ) -> (state: DroneFlewThroughHoleResult)
        ensures
            state@ == TransitModel::begin(
                *hole_position,
                hole_orientation@,
                arming_distance as int,
                *drone_position,
                completion_distance as int,
            ),
            state@.well_formed(),
    {
        let plane_vector = get_plane(hole_position, hole_orientation);
        DroneFlewThroughHoleResult {
            flew_through: false,
            start_point: if is_point_near_plane(drone_position, &plane_vector, arming_distance) {
                Some(*drone_position)
            } else {
                None
            },
            plane_vector,
            hole_center: *hole_position,
            hole_orientation: *hole_orientation,
            flying_into_hole_pass_distance: arming_distance,
            flying_into_hole_detection_pass_distance: completion_distance,
        }
    }

    /// The detector after the vehicle has been seen at `drone_position`.
    pub fn update(self, drone_position: &Point) -> (state: DroneFlewThroughHoleResult)
        ensures
            state@ == self@.update(*drone_position),
            state@.well_formed(),
    {
        proof {
            use_type_invariant(self);
        }
        if self.flew_through {
            return self;
        }
        let start_point = if self.start_point.is_none() && is_point_near_plane(
            drone_position,
            &self.plane_vector,
            self.flying_into_hole_pass_distance,
        ) {
            Some(*drone_position)
        } else {
            self.start_point
        };
        match start_point {
            Some(start) => DroneFlewThroughHoleResult {
                flew_through: are_points_opposite(&start, drone_position, &self.plane_vector)
                    && is_point_far_from_plane(
                    drone_position,
                    &self.plane_vector,
                    self.flying_into_hole_detection_pass_distance,
                ),
                start_point,
                plane_vector: self.plane_vector,
                hole_center: self.hole_center,
                hole_orientation: self.hole_orientation,
                flying_into_hole_pass_distance: self.flying_into_hole_pass_distance,
                flying_into_hole_detection_pass_distance: self.flying_into_hole_detection_pass_distance,
            },
            None => self,
        }
    }

    /// Where the vehicle was when it was first seen near the aperture's
    /// plane, once it has been.
    pub fn start_point(&self) -> (start_point: Option<Point>)
        ensures
            start_point == self@.start_point,
    {
        self.start_point
    }

    /// The plane of the aperture.
    pub fn plane(&self) -> (plane: PlaneEquation)
        ensures
            plane@ == self@.plane,
    {
        self.plane_vector
    }
}

/// What `has_drone_flew_through_hole` is asked: to start on an aperture, or to
/// go on from an earlier answer.
pub enum DroneFlewThroughHoleResultParams<'a> {
    New {
        hole_position: &'a Point,
        hole_orientation: &'a Orientation,
        /// Arming distance, in millimetres.
        flying_into_hole_pass_distance: u32,
        drone_position: &'a Point,
        /// Completion distance, in millimetres.
        flying_into_hole_detection_pass_distance: u32,
    },
    PreviousResult { previous_result: DroneFlewThroughHoleResult, drone_position: &'a Point },
}

impl<'a> DroneFlewThroughHoleResultParams<'a> {
    /// The detector that these parameters ask for.
    pub open spec fn outcome(self) -> TransitModel {
        match self {
            DroneFlewThroughHoleResultParams::New {
                hole_position,
                hole_orientation,
                flying_into_hole_pass_distance,
                drone_position,
                flying_into_hole_detection_pass_distance,
            } => TransitModel::begin(
                *hole_position,
                hole_orientation@,
                flying_into_hole_pass_distance as int,
                *drone_position,
                flying_into_hole_detection_pass_distance as int,
            ),
            DroneFlewThroughHoleResultParams::PreviousResult {
                previous_result,
                drone_position,
            } => previous_result@.update(*drone_position),
        }
    }
}

/// One step of deciding whether the vehicle has flown through an aperture.
/// The first call names the aperture and the two distances; each later call
/// hands back the previous answer together with the vehicle's latest
/// position.
pub fn has_drone_flew_through_hole(
    params: DroneFlewThroughHoleResultParams,
) -> (result: DroneFlewThroughHoleResult)
    ensures
        result@ == params.outcome(),
        result@.well_formed(),
{
    match params {
        DroneFlewThroughHoleResultParams::New {
            hole_position,
            hole_orientation,
            flying_into_hole_pass_distance,
            drone_position,
            flying_into_hole_detection_pass_distance,
        } => DroneFlewThroughHoleResult::begin(
            hole_position,
            hole_orientation,
            flying_into_hole_pass_distance,
            drone_position,
            flying_into_hole_detection_pass_distance,
        ),
        DroneFlewThroughHoleResultParams::PreviousResult {
            previous_result,
            drone_position,
        } => previous_result.update(drone_position),
    }
}

/// A new detector is well formed and reports no transit.
pub proof fn lemma_new_transit_is_well_formed(
    hole_position: Point,
    hole_orientation: Axes,
    arming_distance: int,
    drone_position: Point,
    completion_distance: int,
)
    ensures
        TransitModel::begin(
            hole_position,
            hole_orientation,
            arming_distance,
            drone_position,
            completion_distance,
        ).well_formed(),
        !TransitModel::begin(
            hole_position,
            hole_orientation,
            arming_distance,
            drone_position,
            completion_distance,
        ).flew_through,
{
}

/// An update keeps a detector well formed.
pub proof fn lemma_transit_stays_well_formed(state: TransitModel, drone_position: Point)
    requires
        state.well_formed(),
    ensures
        state.update(drone_position).well_formed(),
{
}

/// A start point, once recorded, is never replaced.
pub proof fn lemma_start_point_is_permanent(state: TransitModel, drone_position: Point)
    requires
        state.is_armed(),
    ensures
        state.update(drone_position).start_point == state.start_point,
{
}

/// Once a detector has reported a transit, no sequence of later positions
/// changes it: it goes on reporting the transit.
pub proof fn lemma_transit_is_final(state: TransitModel, positions: Seq<Point>)
    requires
        state.flew_through,
    ensures
        state.after(positions) == state,
        state.after(positions).flew_through,
    decreases positions.len(),
{
    if positions.len() > 0 {
        lemma_transit_is_final(state, positions.drop_last());
    }
}

/// To show a detector some positions and then some more is to show it all of
/// them.
pub proof fn lemma_transit_after_splits(state: TransitModel, positions: Seq<Point>, shown: int)
    requires
        0 <= shown <= positions.len(),
    ensures
        state.after(positions) == state.after(positions.take(shown)).after(positions.skip(shown)),
    decreases positions.len(),
{
    if shown == positions.len() {
        assert(positions.take(shown) == positions);
    } else {
        lemma_transit_after_splits(state, positions.drop_last(), shown);
        assert(positions.drop_last().take(shown) == positions.take(shown));
        assert(positions.drop_last().skip(shown) == positions.skip(shown).drop_last());
    }
}

/// A detector that has reported a transit after some of the positions that
/// it is shown reports it after all of them, wherever the vehicle goes.
pub proof fn lemma_transit_is_monotone(state: TransitModel, positions: Seq<Point>, shown: int)
    requires
        0 <= shown <= positions.len(),
        state.after(positions.take(shown)).flew_through,
    ensures
        state.after(positions).flew_through,
{
    lemma_transit_after_splits(state, positions, shown);
    lemma_transit_is_final(state.after(positions.take(shown)), positions.skip(shown));
}

/// The part of `distance` that falls to one component of a unit direction:
/// their product in millionths, as whole millimetres, rounded towards zero.
pub open spec fn scaled(distance: int, component: int) -> int {
    let product = distance * component;
    if product >= 0 {
        product / (AXIS_UNIT as int)
    } else {
        -((-product) / (AXIS_UNIT as int))
    }
}

/// The coordinate nearest to `value`.
pub open spec fn saturated(value: int) -> int {
    if value < i32::MIN {
        i32::MIN as int
    } else if value > i32::MAX {
        i32::MAX as int
    } else {
        value
    }
}

/// The point `distance` millimetres from `point` along `direction`, which is
/// taken to have unit length. A negative distance leads the other way. Each
/// coordinate stops at the end of the range of coordinates.
pub open spec fn displaced(point: Point, direction: Vector3, distance: int) -> Point {
    Point {
        x: saturated(point.x + scaled(distance, direction.x as int)) as i32,
        y: saturated(point.y + scaled(distance, direction.y as int)) as i32,
        z: saturated(point.z + scaled(distance, direction.z as int)) as i32,
    }
}

/// The direction to face by default: along the x axis of the map.
pub open spec fn default_facing() -> Vector3 {
    Vector3 { x: AXIS_UNIT, y: 0, z: 0 }
}

/// `direction`, or the default where `direction` has no length.
pub open spec fn facing_or_default(direction: Vector3) -> Vector3 {
    if direction.x == 0 && direction.y == 0 && direction.z == 0 {
        default_facing()
    } else {
        direction
    }
}

/// The part of `direction` that lies in the horizontal plane.
pub open spec fn horizontal(direction: Vector3) -> Vector3 {
    Vector3 { x: direction.x, y: direction.y, z: 0 }
}

/// From where to fly through `hole`. The two candidates lie `distance`
/// millimetres from the centre of the aperture on either side, along its local
/// x axis. The one that is farther from `drone_position` is chosen, so that
/// the way to the other side leads through the whole aperture; of two equally
/// far candidates, the one against the local x axis. The vehicle is to face
/// the centre of the aperture, and the map's x axis where the aperture's
/// local x axis is vertical.
pub open spec fn entry_in_hole(
    hole: DetectedObject,
    drone_position: Point,
    distance: int,
) -> Waypoint {
    let axis = hole.pose.orientation@.x_axis;
    let first = displaced(hole.pose.position, axis, distance);
    let second = displaced(hole.pose.position, axis, -distance);
    if squared_distance(drone_position, first) > squared_distance(drone_position, second) {
        Waypoint { position: first, facing: facing_or_default(horizontal(axis).reversed()) }
    } else {
        Waypoint { position: second, facing: facing_or_default(horizontal(axis)) }
    }
}

/// Computes [`scaled`] for a distance of either sign.
fn scale(distance: i64, component: i32) -> (part: i64)
    requires
        -0x1_0000_0000 < distance < 0x1_0000_0000,
        -AXIS_UNIT <= component <= AXIS_UNIT,
    ensures
        part == scaled(distance as int, component as int),
        -0x1_0000_0000 < part < 0x1_0000_0000,
{
    proof {
        lemma_product_bounds(distance as int, component as int, 0xFFFF_FFFF, AXIS_UNIT as int);
    }
    let product: i64 = distance * (component as i64);
    if product >= 0 {
        ((product as u64) / (AXIS_UNIT as u64)) as i64
    } else {
        -((((-product) as u64) / (AXIS_UNIT as u64)) as i64)
    }
}

/// Computes [`saturated`].
fn saturate(value: i64) -> (coordinate: i32)
    ensures
        coordinate == saturated(value as int),
{
    if value < i32::MIN as i64 {
        i32::MIN
    } else if value > i32::MAX as i64 {
        i32::MAX
    } else {
        value as i32
    }
}

/// Computes [`displaced`].
fn displace(point: &Point, direction: &Vector3, distance: i64) -> (moved: Point)
    requires
        -0x1_0000_0000 < distance < 0x1_0000_0000,
        direction.is_axis(),
    ensures
        moved == displaced(*point, *direction, distance as int),
{
    Point {
        x: saturate(point.x as i64 + scale(distance, direction.x)),
        y: saturate(point.y as i64 + scale(distance, direction.y)),
        z: saturate(point.z as i64 + scale(distance, direction.z)),
    }
}

/// Computes [`facing_or_default`].
fn face_or_default(direction: Vector3) -> (facing: Vector3)
    ensures
        facing == facing_or_default(direction),
{
    if direction.x == 0 && direction.y == 0 && direction.z == 0 {
        Vector3 { x: AXIS_UNIT, y: 0, z: 0 }
    } else {
        direction
    }
}

/// Where to fly to before flying through `hole`, `distance` millimetres in
/// front of it, and which way to face there.
pub fn get_entry_in_hole(
    hole: &DetectedObject,
    drone_position: &Point,
    distance: u32,
) -> (entry: Waypoint)
    ensures
        entry == entry_in_hole(*hole, *drone_position, distance as int),
{
    let axis = hole.pose.orientation.x_axis();
    let first_perpendicular_point = displace(&hole.pose.position, &axis, distance as i64);
    let second_perpendicular_point = displace(&hole.pose.position, &axis, -(distance as i64));
    let is_first_point = get_squared_distance_between_points(drone_position, &first_perpendicular_point)
        > get_squared_distance_between_points(drone_position, &second_perpendicular_point);
    if is_first_point {
        Waypoint {
            position: first_perpendicular_point,
            facing: face_or_default(Vector3 { x: -axis.x, y: -axis.y, z: 0 }),
        }
    } else {
        Waypoint {
            position: second_perpendicular_point,
            facing: face_or_default(Vector3 { x: axis.x, y: axis.y, z: 0 }),
        }
    }
}

/// The entry point is one of the two candidates on the aperture's local x
/// axis, and the other candidate is no farther from the vehicle than it.
pub proof fn lemma_entry_is_the_farther_candidate(
    hole: DetectedObject,
    drone_position: Point,
    distance: int,
)
    ensures
        ({
            let axis = hole.pose.orientation@.x_axis;
            let entry = entry_in_hole(hole, drone_position, distance).position;
            let first = displaced(hole.pose.position, axis, distance);
            let second = displaced(hole.pose.position, axis, -distance);
            &&& entry == first || entry == second
            &&& squared_distance(drone_position, entry) >= squared_distance(drone_position, first)
            &&& squared_distance(drone_position, entry) >= squared_distance(drone_position, second)
        }),
{
}

/// The direction in which to face `point` from the origin of the map, and the
/// default direction where `point` is the origin.
pub fn get_orientation_towards_point(point: &Point) -> (facing: Vector3)
    ensures
        facing == facing_or_default(Vector3 { x: point.x, y: point.y, z: point.z }),
{
    face_or_default(Vector3 { x: point.x, y: point.y, z: point.z })
}

/// Whether `fixed` is the aperture `reported` in the convention of the
/// mission: the same aperture at the same place, its dimensions rotated by one
/// place, from width, height, depth to depth, width, height, and its
/// orientation turned by a quarter about its local y axis.
pub open spec fn is_fixed_hole(reported: DetectedObject, fixed: DetectedObject) -> bool {
    &&& fixed.id == reported.id
    &&& fixed.pose.position == reported.pose.position
    &&& fixed.pose.orientation@ == reported.pose.orientation@.quarter_turn_about_y()
    &&& fixed.dimensions == (Vector3 {
        x: reported.dimensions.z,
        y: reported.dimensions.x,
        z: reported.dimensions.y,
    })
}

/// Brings an aperture from the convention of perception to that of the
/// mission. Perception reports width, height and depth, in this order, and
/// an orientation whose local z axis is the normal of the aperture. The
/// mission wants depth, width and height, and the normal as the local x axis:
/// the dimensions are rotated by one place and the orientation is turned by a
/// quarter about its local y axis. To be applied once to each aperture that
/// perception reports.
pub fn fix_hole(hole: &mut DetectedObject)
    ensures
        is_fixed_hole(*old(hole), *final(hole)),
{
    hole.dimensions = Vector3 { x: hole.dimensions.z, y: hole.dimensions.x, z: hole.dimensions.y };
    hole.pose.orientation = hole.pose.orientation.rotated_about_y();
}

/// How far `point` lies from `origin` along the direction from `from` to
/// `to`, multiplied by the distance between `from` and `to`.
pub open spec fn advance_along(from: Point, to: Point, origin: Point, point: Point) -> int {
    (to.x - from.x) * (point.x - origin.x) + (to.y - from.y) * (point.y - origin.y) + (to.z
        - from.z) * (point.z - origin.z)
}

/// Whether the step from `current_point` to `next_point` leads on in the
/// direction of the step from `previous_point` to `current_point`: whether the
/// plane through `current_point`, upright on the earlier step, passes strictly
/// between `previous_point` and `next_point`.
pub open spec fn similar_orientation(
    previous_point: Point,
    current_point: Point,
    next_point: Point,
) -> bool {
    let behind = advance_along(previous_point, current_point, current_point, previous_point);
    let ahead = advance_along(previous_point, current_point, current_point, next_point);
    (behind > 0 && ahead < 0) || (behind < 0 && ahead > 0)
}

/// One term of [`advance_along`].
fn advance_term(from: i32, to: i32, origin: i32, point: i32) -> (term: i128)
    ensures
        term == (to - from) * (point - origin),
        -(0x1_0000_0000 * 0x1_0000_0000) <= term <= 0x1_0000_0000 * 0x1_0000_0000,
{
    let step: i64 = (to as i64) - (from as i64);
    let offset: i64 = (point as i64) - (origin as i64);
    proof {
        lemma_product_bounds(step as int, offset as int, 0x1_0000_0000, 0x1_0000_0000);
    }
    (step as i128) * (offset as i128)
}

/// Computes [`advance_along`].
fn get_advance_along(from: &Point, to: &Point, origin: &Point, point: &Point) -> (advance: i128)
    ensures
        advance == advance_along(*from, *to, *origin, *point),
{
    advance_term(from.x, to.x, origin.x, point.x) + advance_term(from.y, to.y, origin.y, point.y)
        + advance_term(from.z, to.z, origin.z, point.z)
}

/// Whether the step from `current_point` to `next_point` leads on in the
/// direction of the step from `previous_point` to `current_point`.
pub fn has_similar_orientation(
    previous_point: &Point,
    current_point: &Point,
    next_point: &Point,
) -> (similar: bool)
    ensures
        similar == similar_orientation(*previous_point, *current_point, *next_point),
{
    let behind = get_advance_along(previous_point, current_point, current_point, previous_point);
    let ahead = get_advance_along(previous_point, current_point, current_point, next_point);
    (behind > 0 && ahead < 0) || (behind < 0 && ahead > 0)
}

/// The point with the given coordinates.
pub fn new_point(x: i32, y: i32, z: i32) -> (point: Point)
    ensures
        point == (Point { x, y, z }),
{
    Point { x, y, z }
}

/// The origin.
pub fn default_point() -> (point: Point)
    ensures
        point == (Point { x: 0, y: 0, z: 0 }),
{
    Point { x: 0, y: 0, z: 0 }
}

/// The orientation that turns nothing.
pub fn default_quaternion() -> (orientation: Orientation)
    ensures
        orientation@ == Axes::identity(),
{
    Orientation::identity()
}

/// The header of a value given in the frame `frame_id`.
pub fn new_header(frame_id: &str) -> (header: Header)
    ensures
        header.seq == 0,
        header.frame_id@ == frame_id@,
{
    Header { seq: 0, frame_id: String::from_str(frame_id) }
}

/// The point with the given coordinates in the frame `frame_id`.
pub fn new_point_stamped(frame_id: &str, x: i32, y: i32, z: i32) -> (stamped: PointStamped)
    ensures
        stamped.header.seq == 0,
        stamped.header.frame_id@ == frame_id@,
        stamped.point == (Point { x, y, z }),
{
    PointStamped { header: new_header(frame_id), point: new_point(x, y, z) }
}

/// The origin of the frame `frame_id`.
pub fn default_point_stamped(frame_id: &str) -> (stamped: PointStamped)
    ensures
        stamped.header.seq == 0,
        stamped.header.frame_id@ == frame_id@,
        stamped.point == (Point { x: 0, y: 0, z: 0 }),
{
    PointStamped { header: new_header(frame_id), point: default_point() }
}

} // verus!
