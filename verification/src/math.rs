//! Vectors, rotations and poses over binary32 components.

use vstd::prelude::*;
use crate::arith::{
    cos, cosine, difference, minus, over, plus, product, quotient, root, sin, sine, sqrt, sum,
    times, unit_ready, Operation,
};
use crate::ieee::Single;

verus! {

/// Bit pattern of binary32 `1.0`.
pub const ONE: u32 = 0x3f80_0000;

/// Bit pattern of binary32 `-1.0`.
pub const MINUS_ONE: u32 = 0xbf80_0000;

/// Bit pattern of binary32 `0.5`.
pub const HALF: u32 = 0x3f00_0000;

/// A vector of three binary32 components.
#[derive(Clone, Copy, Debug, PartialEq, Eq, Structural)]
pub struct Vec3 {
    pub x: Single,
    pub y: Single,
    pub z: Single,
}

/// A rotation as a quaternion of four binary32 components.
#[derive(Clone, Copy, Debug, PartialEq, Eq, Structural)]
pub struct Quat {
    pub x: Single,
    pub y: Single,
    pub z: Single,
    pub w: Single,
}

/// A pose: where a body is and how it is turned.
#[derive(Clone, Copy, Debug, PartialEq, Eq, Structural)]
pub struct Transform {
    pub position: Vec3,
    pub rotation: Quat,
}

impl Vec3 {
    /// The vector with all components `0.0`.
    pub open spec fn zero_vector() -> Vec3 {
        Vec3 { x: Single::of(0), y: Single::of(0), z: Single::of(0) }
    }

    /// `(x*x + y*y) + z*z`, each step rounded by `unit`.
    pub open spec fn squared_length<U: Fn(Operation, u64, u64) -> u64>(self, unit: &U) -> Single {
        sum(
            unit,
            sum(unit, product(unit, self.x, self.x), product(unit, self.y, self.y)),
            product(unit, self.z, self.z),
        )
    }

    /// The square root of [`Vec3::squared_length`].
    pub open spec fn length<U: Fn(Operation, u64, u64) -> u64>(self, unit: &U) -> Single {
        root(unit, self.squared_length(unit))
    }

    /// `(x*ox + y*oy) + z*oz`, each step rounded by `unit`.
    pub open spec fn inner<U: Fn(Operation, u64, u64) -> u64>(
        self,
        other: Vec3,
        unit: &U,
    ) -> Single {
        sum(
            unit,
            sum(unit, product(unit, self.x, other.x), product(unit, self.y, other.y)),
            product(unit, self.z, other.z),
        )
    }

    /// The vector product, each component a difference of two products.
    pub open spec fn outer<U: Fn(Operation, u64, u64) -> u64>(self, other: Vec3, unit: &U) -> Vec3 {
        Vec3 {
            x: difference(unit, product(unit, self.y, other.z), product(unit, self.z, other.y)),
            y: difference(unit, product(unit, self.z, other.x), product(unit, self.x, other.z)),
            z: difference(unit, product(unit, self.x, other.y), product(unit, self.y, other.x)),
        }
    }

    /// Each component divided by the length, or the zero vector where the
    /// length is not above `0.0`.
    pub open spec fn unit_vector<U: Fn(Operation, u64, u64) -> u64>(self, unit: &U) -> Vec3 {
        let len = self.length(unit);
        if Single::of(0).below(len) {
            Vec3 {
                x: quotient(unit, self.x, len),
                y: quotient(unit, self.y, len),
                z: quotient(unit, self.z, len),
            }
        } else {
            Vec3::zero_vector()
        }
    }

    /// The component-wise sum.
    pub open spec fn added<U: Fn(Operation, u64, u64) -> u64>(self, other: Vec3, unit: &U) -> Vec3 {
        Vec3 {
            x: sum(unit, self.x, other.x),
            y: sum(unit, self.y, other.y),
            z: sum(unit, self.z, other.z),
        }
    }

    /// The component-wise difference.
    pub open spec fn subtracted<U: Fn(Operation, u64, u64) -> u64>(
        self,
        other: Vec3,
        unit: &U,
    ) -> Vec3 {
        Vec3 {
            x: difference(unit, self.x, other.x),
            y: difference(unit, self.y, other.y),
            z: difference(unit, self.z, other.z),
        }
    }

    /// Each component times `factor`.
    pub open spec fn stretched<U: Fn(Operation, u64, u64) -> u64>(
        self,
        factor: Single,
        unit: &U,
    ) -> Vec3 {
        Vec3 {
            x: product(unit, self.x, factor),
            y: product(unit, self.y, factor),
            z: product(unit, self.z, factor),
        }
    }

    pub fn new(x: Single, y: Single, z: Single) -> (v: Vec3)
        ensures
            v == (Vec3 { x, y, z }),
    {
        Vec3 { x, y, z }
    }

    /// `(0, 0, 0)`.
    pub fn zero() -> (v: Vec3)
        ensures
            v == Vec3::zero_vector(),
    {
        Vec3 { x: Single { bits: 0 }, y: Single { bits: 0 }, z: Single { bits: 0 } }
    }

    /// `(1, 1, 1)`.
    pub fn one() -> (v: Vec3)
        ensures
            v.x.bits == ONE,
            v.y.bits == ONE,
            v.z.bits == ONE,
    {
        Vec3 { x: Single { bits: ONE }, y: Single { bits: ONE }, z: Single { bits: ONE } }
    }

    /// `(0, 1, 0)`.
    pub fn up() -> (v: Vec3)
        ensures
            v.x.bits == 0,
            v.y.bits == ONE,
            v.z.bits == 0,
    {
        Vec3 { x: Single { bits: 0 }, y: Single { bits: ONE }, z: Single { bits: 0 } }
    }

    /// `(0, -1, 0)`.
    pub fn down() -> (v: Vec3)
        ensures
            v.x.bits == 0,
            v.y.bits == MINUS_ONE,
            v.z.bits == 0,
    {
        Vec3 { x: Single { bits: 0 }, y: Single { bits: MINUS_ONE }, z: Single { bits: 0 } }
    }

    /// `(0, 0, -1)`.
    pub fn forward() -> (v: Vec3)
        ensures
            v.x.bits == 0,
            v.y.bits == 0,
            v.z.bits == MINUS_ONE,
    {
        Vec3 { x: Single { bits: 0 }, y: Single { bits: 0 }, z: Single { bits: MINUS_ONE } }
    }

    /// The vector of the three components of `components`, in order.
    pub fn from_array(components: [Single; 3]) -> (v: Vec3)
        ensures
            v == (Vec3 { x: components[0], y: components[1], z: components[2] }),
    {
        Vec3 { x: components[0], y: components[1], z: components[2] }
    }

    /// The three components, in order.
    pub fn to_array(self) -> (components: [Single; 3])
        ensures
            components[0] == self.x,
            components[1] == self.y,
            components[2] == self.z,
    {
        [self.x, self.y, self.z]
    }

    /// The squared Euclidean length.
    pub fn magnitude_squared<U: Fn(Operation, u64, u64) -> u64>(&self, unit: &U) -> (r: Single)
        requires
            unit_ready(unit),
        ensures
            r == self.squared_length(unit),
    {
        let xx = times(unit, self.x, self.x);
        let yy = times(unit, self.y, self.y);
        let zz = times(unit, self.z, self.z);
        plus(unit, plus(unit, xx, yy), zz)
    }

    /// The Euclidean length.
    pub fn magnitude<U: Fn(Operation, u64, u64) -> u64>(&self, unit: &U) -> (r: Single)
        requires
            unit_ready(unit),
        ensures
            r == self.length(unit),
    {
        sqrt(unit, self.magnitude_squared(unit))
    }

    /// The vector scaled to length one, or the zero vector where the length
    /// is not above `0.0`.
    pub fn normalized<U: Fn(Operation, u64, u64) -> u64>(&self, unit: &U) -> (r: Vec3)
        requires
            unit_ready(unit),
        ensures
            r == self.unit_vector(unit),
    {
        let len = self.magnitude(unit);
        if len.gt(Single { bits: 0 }) {
            Vec3 {
                x: over(unit, self.x, len),
                y: over(unit, self.y, len),
                z: over(unit, self.z, len),
            }
        } else {
            Vec3::zero()
        }
    }

    /// The scalar product.
    pub fn dot<U: Fn(Operation, u64, u64) -> u64>(&self, other: &Vec3, unit: &U) -> (r: Single)
        requires
            unit_ready(unit),
        ensures
            r == self.inner(*other, unit),
    {
        let xx = times(unit, self.x, other.x);
        let yy = times(unit, self.y, other.y);
        let zz = times(unit, self.z, other.z);
        plus(unit, plus(unit, xx, yy), zz)
    }

    /// The vector product.
    pub fn cross<U: Fn(Operation, u64, u64) -> u64>(&self, other: &Vec3, unit: &U) -> (r: Vec3)
        requires
            unit_ready(unit),
        ensures
            r == self.outer(*other, unit),
    {
        Vec3 {
            x: minus(unit, times(unit, self.y, other.z), times(unit, self.z, other.y)),
            y: minus(unit, times(unit, self.z, other.x), times(unit, self.x, other.z)),
            z: minus(unit, times(unit, self.x, other.y), times(unit, self.y, other.x)),
        }
    }

    /// The component-wise sum of the two vectors.
    pub fn plus<U: Fn(Operation, u64, u64) -> u64>(self, other: Vec3, unit: &U) -> (r: Vec3)
        requires
            unit_ready(unit),
        ensures
            r == self.added(other, unit),
    {
        Vec3 {
            x: plus(unit, self.x, other.x),
            y: plus(unit, self.y, other.y),
            z: plus(unit, self.z, other.z),
        }
    }

    /// The component-wise difference of the two vectors.
    pub fn minus<U: Fn(Operation, u64, u64) -> u64>(self, other: Vec3, unit: &U) -> (r: Vec3)
        requires
            unit_ready(unit),
        ensures
            r == self.subtracted(other, unit),
    {
        Vec3 {
            x: minus(unit, self.x, other.x),
            y: minus(unit, self.y, other.y),
            z: minus(unit, self.z, other.z),
        }
    }

    /// The vector with each component multiplied by `factor`.
    pub fn scaled<U: Fn(Operation, u64, u64) -> u64>(self, factor: Single, unit: &U) -> (r: Vec3)
        requires
            unit_ready(unit),
        ensures
            r == self.stretched(factor, unit),
    {
        Vec3 {
            x: times(unit, self.x, factor),
            y: times(unit, self.y, factor),
            z: times(unit, self.z, factor),
        }
    }
}

impl Default for Vec3 {
    fn default() -> (v: Vec3)
        ensures
            v == Vec3::zero_vector(),
    {
        Vec3::zero()
    }
}

impl Quat {
    /// The rotation that turns nothing: `(0, 0, 0, 1)`.
    pub open spec fn no_rotation() -> Quat {
        Quat { x: Single::of(0), y: Single::of(0), z: Single::of(0), w: Single::of(ONE) }
    }

    /// The rotation by `angle` radians about `axis`: the normalized axis times
    /// the sine of half the angle, and the cosine of half the angle.
    pub open spec fn about_axis<U: Fn(Operation, u64, u64) -> u64>(
        axis: Vec3,
        angle: Single,
        unit: &U,
    ) -> Quat {
        let half = product(unit, angle, Single::of(HALF));
        let s = sine(unit, half);
        let c = cosine(unit, half);
        let n = axis.unit_vector(unit);
        Quat { x: product(unit, n.x, s), y: product(unit, n.y, s), z: product(unit, n.z, s), w: c }
    }

    /// The rotation given by roll, pitch and yaw, in radians.
    pub open spec fn of_euler<U: Fn(Operation, u64, u64) -> u64>(
        roll: Single,
        pitch: Single,
        yaw: Single,
        unit: &U,
    ) -> Quat {
        let half = Single::of(HALF);
        let sr = sine(unit, product(unit, roll, half));
        let cr = cosine(unit, product(unit, roll, half));
        let sp = sine(unit, product(unit, pitch, half));
        let cp = cosine(unit, product(unit, pitch, half));
        let sy = sine(unit, product(unit, yaw, half));
        let cy = cosine(unit, product(unit, yaw, half));
        Quat {
            x: difference(
                unit,
                product(unit, product(unit, sr, cp), cy),
                product(unit, product(unit, cr, sp), sy),
            ),
            y: sum(
                unit,
                product(unit, product(unit, cr, sp), cy),
                product(unit, product(unit, sr, cp), sy),
            ),
            z: difference(
                unit,
                product(unit, product(unit, cr, cp), sy),
                product(unit, product(unit, sr, sp), cy),
            ),
            w: sum(
                unit,
                product(unit, product(unit, cr, cp), cy),
                product(unit, product(unit, sr, sp), sy),
            ),
        }
    }

    pub fn new(x: Single, y: Single, z: Single, w: Single) -> (q: Quat)
        ensures
            q == (Quat { x, y, z, w }),
    {
        Quat { x, y, z, w }
    }

    /// The rotation that turns nothing.
    pub fn identity() -> (q: Quat)
        ensures
            q == Quat::no_rotation(),
    {
        Quat {
            x: Single { bits: 0 },
            y: Single { bits: 0 },
            z: Single { bits: 0 },
            w: Single { bits: ONE },
        }
    }

    /// The rotation by `angle` radians about `axis`.
    pub fn from_axis_angle<U: Fn(Operation, u64, u64) -> u64>(
        axis: Vec3,
        angle: Single,
        unit: &U,
    ) -> (q: Quat)
        requires
            unit_ready(unit),
        ensures
            q == Quat::about_axis(axis, angle, unit),
    {
        let half = times(unit, angle, Single { bits: HALF });
        let s = sin(unit, half);
        let c = cos(unit, half);
        let n = axis.normalized(unit);
        Quat { x: times(unit, n.x, s), y: times(unit, n.y, s), z: times(unit, n.z, s), w: c }
    }

    /// The rotation given by roll, pitch and yaw, in radians.
    pub fn from_euler<U: Fn(Operation, u64, u64) -> u64>(
        roll: Single,
        pitch: Single,
        yaw: Single,
        unit: &U,
    ) -> (q: Quat)
        requires
            unit_ready(unit),
        ensures
            q == Quat::of_euler(roll, pitch, yaw, unit),
    {
        let half = Single { bits: HALF };
        let sr = sin(unit, times(unit, roll, half));
        let cr = cos(unit, times(unit, roll, half));
        let sp = sin(unit, times(unit, pitch, half));
        let cp = cos(unit, times(unit, pitch, half));
        let sy = sin(unit, times(unit, yaw, half));
        let cy = cos(unit, times(unit, yaw, half));
        Quat {
            x: minus(
                unit,
                times(unit, times(unit, sr, cp), cy),
                times(unit, times(unit, cr, sp), sy),
            ),
            y: plus(
                unit,
                times(unit, times(unit, cr, sp), cy),
                times(unit, times(unit, sr, cp), sy),
            ),
            z: minus(
                unit,
                times(unit, times(unit, cr, cp), sy),
                times(unit, times(unit, sr, sp), cy),
            ),
            w: plus(
                unit,
                times(unit, times(unit, cr, cp), cy),
                times(unit, times(unit, sr, sp), sy),
            ),
        }
    }
}

impl Default for Quat {
    fn default() -> (q: Quat)
        ensures
            q == Quat::no_rotation(),
    {
        Quat::identity()
    }
}

impl Transform {
    /// The pose at the origin, turned by nothing.
    pub open spec fn at_rest() -> Transform {
        Transform { position: Vec3::zero_vector(), rotation: Quat::no_rotation() }
    }

    pub fn new(position: Vec3, rotation: Quat) -> (t: Transform)
        ensures
            t == (Transform { position, rotation }),
    {
        Transform { position, rotation }
    }

    /// The pose at `position`, turned by nothing.
    pub fn from_position(position: Vec3) -> (t: Transform)
        ensures
            t == (Transform { position, rotation: Quat::no_rotation() }),
    {
        Transform { position, rotation: Quat::identity() }
    }

    /// The pose at the origin, turned by nothing.
    pub fn identity() -> (t: Transform)
        ensures
            t == Transform::at_rest(),
    {
        Transform { position: Vec3::zero(), rotation: Quat::identity() }
    }
}

impl Default for Transform {
    fn default() -> (t: Transform)
        ensures
            t == Transform::at_rest(),
    {
        Transform::identity()
    }
}

} // verus!
