//! Fixed-point spatial types: vectors, orientations, transforms, the bounds
//! of an orthographic volume, and colours.  Every component is a signed
//! count of thousandths of its unit (world units, degrees, or colour
//! intensity), so that the scene description stays in integer arithmetic.

use vstd::prelude::*;

verus! {

/// Number of fixed-point steps that make one unit: every scalar in this
/// crate is stored as a signed count of thousandths.
pub const MILLI_PER_UNIT: i64 = 1000;

/// A three-component vector, each component in thousandths of a world unit.
#[derive(Clone, Copy, PartialEq, Eq, Structural, Debug)]
pub struct Vec3Milli {
    pub x: i64,
    pub y: i64,
    pub z: i64,
}

/// The component-wise sum of two vectors, truncated into the fixed-point
/// range (which the scene in this crate never leaves).
pub open spec fn vec3_sum(a: Vec3Milli, b: Vec3Milli) -> Vec3Milli {
    Vec3Milli {
        x: (a.x + b.x) as i64,
        y: (a.y + b.y) as i64,
        z: (a.z + b.z) as i64,
    }
}

/// The component-wise difference `a - b`, truncated into the fixed-point
/// range.
pub open spec fn vec3_diff(a: Vec3Milli, b: Vec3Milli) -> Vec3Milli {
    Vec3Milli {
        x: (a.x - b.x) as i64,
        y: (a.y - b.y) as i64,
        z: (a.z - b.z) as i64,
    }
}

/// True when every component of `a - b` fits the fixed-point range, so the
/// executable difference equals the mathematical one.
pub open spec fn vec3_diff_fits(a: Vec3Milli, b: Vec3Milli) -> bool {
    &&& i64::MIN <= a.x - b.x <= i64::MAX
    &&& i64::MIN <= a.y - b.y <= i64::MAX
    &&& i64::MIN <= a.z - b.z <= i64::MAX
}

impl Vec3Milli {
    /// The world origin.
    pub open spec fn zero() -> Vec3Milli {
        Vec3Milli { x: 0, y: 0, z: 0 }
    }

    /// The unit vector along the vertical render axis.
    pub open spec fn unit_z() -> Vec3Milli {
        Vec3Milli { x: 0, y: 0, z: MILLI_PER_UNIT }
    }

    /// Component-wise difference `self - other`.
    pub fn difference(&self, other: &Vec3Milli) -> (d: Vec3Milli)
        requires
            vec3_diff_fits(*self, *other),
        ensures
            d == vec3_diff(*self, *other),
    {
        Vec3Milli { x: self.x - other.x, y: self.y - other.y, z: self.z - other.z }
    }
}

/// An orientation given as intrinsic Euler rotations applied in Z, X, Y
/// order, each angle in thousandths of a degree.
#[derive(Clone, Copy, PartialEq, Eq, Structural, Debug)]
pub struct EulerZxy {
    pub z_mdeg: i64,
    pub x_mdeg: i64,
    pub y_mdeg: i64,
}

impl EulerZxy {
    /// No rotation at all.
    pub open spec fn identity() -> EulerZxy {
        EulerZxy { z_mdeg: 0, x_mdeg: 0, y_mdeg: 0 }
    }
}

/// How a scene object is turned: either by explicit Euler angles, or aimed
/// from its own position at a target point with a given up direction.
#[derive(Clone, Copy, PartialEq, Eq, Structural, Debug)]
pub enum Orientation {
    /// Explicit Euler angles.
    Euler(EulerZxy),
    /// Face `target`, with `up` fixing the roll around the viewing axis.
    LookAt { target: Vec3Milli, up: Vec3Milli },
}

/// True when composing a further rotation of `angle_mdeg` about the x axis
/// stays representable: the orientation must already be a pure x rotation,
/// and the summed angle must fit the fixed-point range.
pub open spec fn euler_x_fits(o: Orientation, angle_mdeg: i64) -> bool {
    match o {
        Orientation::Euler(e) => {
            &&& e.z_mdeg == 0
            &&& e.y_mdeg == 0
            &&& i64::MIN <= e.x_mdeg + angle_mdeg <= i64::MAX
        },
        Orientation::LookAt { .. } => false,
    }
}

/// The orientation after a further rotation of `angle_mdeg` about the x
/// axis, for orientations where `euler_x_fits` holds.
pub open spec fn euler_x_composed(o: Orientation, angle_mdeg: i64) -> Orientation {
    match o {
        Orientation::Euler(e) => Orientation::Euler(
            EulerZxy {
                z_mdeg: e.z_mdeg,
                x_mdeg: (e.x_mdeg + angle_mdeg) as i64,
                y_mdeg: e.y_mdeg,
            },
        ),
        Orientation::LookAt { .. } => o,
    }
}

/// A placement: where an object stands and how it is turned.
#[derive(Clone, Copy, PartialEq, Eq, Structural, Debug)]
pub struct Transform {
    pub translation: Vec3Milli,
    pub orientation: Orientation,
}

impl Transform {
    /// A transform that only translates.
    pub fn from_translation(translation: Vec3Milli) -> (t: Transform)
        ensures
            t.translation == translation,
            t.orientation == Orientation::Euler(EulerZxy::identity()),
    {
        Transform {
            translation,
            orientation: Orientation::Euler(
                EulerZxy { z_mdeg: 0, x_mdeg: 0, y_mdeg: 0 },
            ),
        }
    }

    /// The same orientation at a new position.
    pub fn with_translation(self, translation: Vec3Milli) -> (t: Transform)
        ensures
            t.translation == translation,
            t.orientation == self.orientation,
    {
        Transform { translation, orientation: self.orientation }
    }

    /// Compose a further rotation about the x axis.  The fixed-angle model
    /// can only express this while no other axis is turned, which
    /// `euler_x_fits` demands.
    pub fn rotate_x(&mut self, angle_mdeg: i64)
        requires
            euler_x_fits(old(self).orientation, angle_mdeg),
        ensures
            final(self).translation == old(self).translation,
            final(self).orientation == euler_x_composed(old(self).orientation, angle_mdeg),
    {
        let o = self.orientation;
        match o {
            Orientation::Euler(e) => {
                self.orientation = Orientation::Euler(
                    EulerZxy {
                        z_mdeg: e.z_mdeg,
                        x_mdeg: e.x_mdeg + angle_mdeg,
                        y_mdeg: e.y_mdeg,
                    },
                );
            },
            Orientation::LookAt { .. } => {},
        }
    }
}

/// The six clipping planes of an orthographic volume, each in thousandths
/// of a world unit.
#[derive(Clone, Copy, PartialEq, Eq, Structural, Debug)]
pub struct OrthoBounds {
    pub left: i64,
    pub right: i64,
    pub bottom: i64,
    pub top: i64,
    pub near: i64,
    pub far: i64,
}

impl OrthoBounds {
    /// A box centred on its axis: `half_extent` to each side, `half_depth`
    /// before and behind.
    pub open spec fn symmetric_spec(half_extent: i64, half_depth: i64) -> OrthoBounds {
        OrthoBounds {
            left: (-half_extent) as i64,
            right: half_extent,
            bottom: (-half_extent) as i64,
            top: half_extent,
            near: (-half_depth) as i64,
            far: half_depth,
        }
    }

    /// Builds the symmetric box of `symmetric_spec`.
    pub fn symmetric(half_extent: i64, half_depth: i64) -> (b: OrthoBounds)
        requires
            half_extent != i64::MIN,
            half_depth != i64::MIN,
        ensures
            b == OrthoBounds::symmetric_spec(half_extent, half_depth),
    {
        OrthoBounds {
            left: -half_extent,
            right: half_extent,
            bottom: -half_extent,
            top: half_extent,
            near: -half_depth,
            far: half_depth,
        }
    }
}

/// An RGB colour, each channel in thousandths of full intensity.
#[derive(Clone, Copy, PartialEq, Eq, Structural, Debug)]
pub struct ColorMilli {
    pub red: i64,
    pub green: i64,
    pub blue: i64,
}

impl ColorMilli {
    /// Full-intensity white.
    pub open spec fn white() -> ColorMilli {
        ColorMilli { red: MILLI_PER_UNIT, green: MILLI_PER_UNIT, blue: MILLI_PER_UNIT }
    }

    /// The grey with all three channels at `level` thousandths.
    pub open spec fn grey_spec(level: i64) -> ColorMilli {
        ColorMilli { red: level, green: level, blue: level }
    }

    /// Builds the uniform grey of `grey_spec`.
    pub fn grey(level: i64) -> (c: ColorMilli)
        ensures
            c == ColorMilli::grey_spec(level),
    {
        ColorMilli { red: level, green: level, blue: level }
    }
}

} // verus!
