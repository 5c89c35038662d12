//! The plain values that the vehicle's collaborators report and accept.

use vstd::prelude::*;

verus! {

/// Length of a unit axis vector: the components of a local axis are whole
/// millionths.
pub const AXIS_UNIT: i32 = 1_000_000;

/// A position in millimetres.
#[derive(Clone, Copy, Debug, PartialEq, Eq, Structural)]
pub struct Point {
    pub x: i32,
    pub y: i32,
    pub z: i32,
}

/// A displacement, a direction, or the three dimensions of a box.
#[derive(Clone, Copy, Debug, PartialEq, Eq, Structural)]
pub struct Vector3 {
    pub x: i32,
    pub y: i32,
    pub z: i32,
}

impl Vector3 {
    /// Whether every component lies between `-AXIS_UNIT` and `AXIS_UNIT`, as
    /// the components of a unit vector do.
    pub open spec fn is_axis(self) -> bool {
        &&& -AXIS_UNIT <= self.x <= AXIS_UNIT
        &&& -AXIS_UNIT <= self.y <= AXIS_UNIT
        &&& -AXIS_UNIT <= self.z <= AXIS_UNIT
    }

    /// Tests [`Vector3::is_axis`].
    pub fn fits_axis(&self) -> (fits: bool)
        ensures
            fits == self.is_axis(),
    {
        -AXIS_UNIT <= self.x && self.x <= AXIS_UNIT && -AXIS_UNIT <= self.y && self.y
            <= AXIS_UNIT && -AXIS_UNIT <= self.z && self.z <= AXIS_UNIT
    }

    /// The vector pointing the other way, for a vector that fits an axis.
    pub open spec fn reversed(self) -> Vector3 {
        Vector3 { x: (-self.x) as i32, y: (-self.y) as i32, z: (-self.z) as i32 }
    }
}

/// The three local axes of an orientation, in the coordinates of the
/// surrounding frame.
pub struct Axes {
    pub x_axis: Vector3,
    pub y_axis: Vector3,
    pub z_axis: Vector3,
}

impl Axes {
    /// The axes after a quarter turn about the local y axis: the local z axis
    /// comes to lie where the local x axis was, and the local x axis points
    /// against the old local z axis.
    pub open spec fn quarter_turn_about_y(self) -> Axes {
        Axes { x_axis: self.z_axis.reversed(), y_axis: self.y_axis, z_axis: self.x_axis }
    }

    /// The axes of the surrounding frame itself.
    pub open spec fn identity() -> Axes {
        Axes {
            x_axis: Vector3 { x: AXIS_UNIT, y: 0, z: 0 },
            y_axis: Vector3 { x: 0, y: AXIS_UNIT, z: 0 },
            z_axis: Vector3 { x: 0, y: 0, z: AXIS_UNIT },
        }
    }
}

/// An orientation, held as the directions of its three local axes. No
/// component of an axis exceeds `AXIS_UNIT` in magnitude.
#[derive(Clone, Copy, Debug, PartialEq, Eq, Structural)]
pub struct Orientation {
    x_axis: Vector3,
    y_axis: Vector3,
    z_axis: Vector3,
}

impl View for Orientation {
    type V = Axes;

    closed spec fn view(&self) -> Axes {
        Axes { x_axis: self.x_axis, y_axis: self.y_axis, z_axis: self.z_axis }
    }
}

impl Orientation {
    #[verifier::type_invariant]
    closed spec fn within_unit(self) -> bool {
        self.x_axis.is_axis() && self.y_axis.is_axis() && self.z_axis.is_axis()
    }

    /// The orientation with the given local axes. There is one exactly when
    /// each of them fits an axis.
    pub fn new(x_axis: Vector3, y_axis: Vector3, z_axis: Vector3) -> (made: Option<Orientation>)
        ensures
            made is Some <==> x_axis.is_axis() && y_axis.is_axis() && z_axis.is_axis(),
            made matches Some(o) ==> o@ == (Axes { x_axis, y_axis, z_axis }),
    {
        if x_axis.fits_axis() && y_axis.fits_axis() && z_axis.fits_axis() {
            Some(Orientation { x_axis, y_axis, z_axis })
        } else {
            None
        }
    }

    /// The orientation of the surrounding frame.
    pub fn identity() -> (o: Orientation)
        ensures
            o@ == Axes::identity(),
    {
        Orientation {
            x_axis: Vector3 { x: AXIS_UNIT, y: 0, z: 0 },
            y_axis: Vector3 { x: 0, y: AXIS_UNIT, z: 0 },
            z_axis: Vector3 { x: 0, y: 0, z: AXIS_UNIT },
        }
    }

    /// The local x axis: the way the oriented thing faces.
    pub fn x_axis(&self) -> (axis: Vector3)
        ensures
            axis == self@.x_axis,
            axis.is_axis(),
    {
        proof {
            use_type_invariant(self);
        }
        self.x_axis
    }

    /// The local y axis.
    pub fn y_axis(&self) -> (axis: Vector3)
        ensures
            axis == self@.y_axis,
            axis.is_axis(),
    {
        proof {
            use_type_invariant(self);
        }
        self.y_axis
    }

    /// The local z axis.
    pub fn z_axis(&self) -> (axis: Vector3)
        ensures
            axis == self@.z_axis,
            axis.is_axis(),
    {
        proof {
            use_type_invariant(self);
        }
        self.z_axis
    }

    /// This orientation after a quarter turn about its local y axis.
    pub fn rotated_about_y(&self) -> (turned: Orientation)
        ensures
            turned@ == self@.quarter_turn_about_y(),
    {
        proof {
            use_type_invariant(self);
        }
        Orientation {
            x_axis: Vector3 { x: -self.z_axis.x, y: -self.z_axis.y, z: -self.z_axis.z },
            y_axis: self.y_axis,
            z_axis: self.x_axis,
        }
    }
}

/// The frame that a stamped value is given in. The time of sending is added
/// when the value is sent.
#[derive(Clone, Debug, PartialEq, Eq)]
pub struct Header {
    pub seq: u32,
    pub frame_id: String,
}

/// A point with the frame that its coordinates are given in.
#[derive(Clone, Debug, PartialEq, Eq)]
pub struct PointStamped {
    pub header: Header,
    pub point: Point,
}

/// Where something is and how it is turned.
#[derive(Clone, Copy, Debug, PartialEq, Eq, Structural)]
pub struct Pose {
    pub position: Point,
    pub orientation: Orientation,
}

/// What an observer is told when the state of a mission changes.
#[derive(Clone, Debug, PartialEq, Eq)]
pub struct DroneStatus {
    /// The new state in words.
    pub state: String,
    /// Whether the new state is the result of a wrong transition.
    pub is_error: bool,
}

/// A place to fly to, with the direction to face on arrival. The direction
/// need not have unit length.
#[derive(Clone, Copy, Debug, PartialEq, Eq, Structural)]
pub struct Waypoint {
    pub position: Point,
    pub facing: Vector3,
}

/// An object that perception has found: an aperture or a cube.
#[derive(Clone, Copy, Debug, PartialEq, Eq, Structural)]
pub struct DetectedObject {
    /// Unique within one run of perception.
    pub id: usize,
    pub pose: Pose,
    /// Depth along the local x axis, width along y, height along z.
    pub dimensions: Vector3,
}

} // verus!
