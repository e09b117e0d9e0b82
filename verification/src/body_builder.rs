//! The description of one body, put together step by step.

use vstd::prelude::*;
use vstd::string::StringExecFns;
use crate::experiment::{BodyConfig, BodyType, MaterialConfig, ShapeConfig};
use crate::ieee::Single;
use crate::math::Vec3;

verus! {

/// Bit pattern of binary32 `0.5`, the friction of a body that names none
/// and half the edge of the shape of a body that names none.
pub const BUILDER_FRICTION: u32 = 0x3f00_0000;

/// Bit pattern of binary32 `0.3`, the restitution of a body that names none.
pub const BUILDER_RESTITUTION: u32 = 0x3e99_999a;

/// Bit pattern of binary32 `1.0`, the density of a body that names none.
pub const BUILDER_DENSITY: u32 = 0x3f80_0000;

/// How the engine moves a body.
#[derive(Clone, Copy, Debug, PartialEq, Eq, Structural)]
pub enum BodyKind {
    /// Forces apply.
    Dynamic,
    /// Immovable.
    Fixed,
    /// Moved from outside, by position.
    KinematicPositionBased,
    /// Moved from outside, by velocity.
    KinematicVelocityBased,
}

/// How a body is turned.
#[derive(Clone, Copy, Debug, PartialEq, Eq, Structural)]
pub enum Rotation {
    /// Not at all.
    Identity,
    /// By `angle` radians about `axis`.
    AxisAngle { axis: Vec3, angle: Single },
    /// By the quaternion `(x, y, z, w)`, which the engine brings to length one.
    Quaternion { x: Single, y: Single, z: Single, w: Single },
}

/// A body in the making. The engine's side turns a finished builder into a
/// rigid body and its collider; a builder without a shape stands for a box
/// of half-extents `0.5`.
#[derive(Clone, Debug)]
pub struct BodyBuilder {
    pub name: String,
    pub position: Vec3,
    pub rotation: Rotation,
    pub velocity: Vec3,
    pub angular_velocity: Vec3,
    pub body_type: BodyKind,
    pub shape: Option<ShapeConfig>,
    pub friction: Single,
    pub restitution: Single,
    pub density: Single,
}

/// What a builder describes, with the name as text.
pub struct BodySketch {
    pub name: Seq<char>,
    pub position: Vec3,
    pub rotation: Rotation,
    pub velocity: Vec3,
    pub angular_velocity: Vec3,
    pub body_type: BodyKind,
    pub shape: Option<ShapeConfig>,
    pub friction: Single,
    pub restitution: Single,
    pub density: Single,
}

impl View for BodyBuilder {
    type V = BodySketch;

    open spec fn view(&self) -> BodySketch {
        BodySketch {
            name: self.name@,
            position: self.position,
            rotation: self.rotation,
            velocity: self.velocity,
            angular_velocity: self.angular_velocity,
            body_type: self.body_type,
            shape: self.shape,
            friction: self.friction,
            restitution: self.restitution,
            density: self.density,
        }
    }
}

/// The vector `(x, y, z)`.
pub open spec fn xyz(x: Single, y: Single, z: Single) -> Vec3 {
    Vec3 { x, y, z }
}

impl BodySketch {
    /// A dynamic body called `name`, at rest at the origin, without a shape,
    /// of friction `0.5`, restitution `0.3` and density `1.0`.
    pub open spec fn fresh(name: Seq<char>) -> BodySketch {
        BodySketch {
            name,
            position: Vec3::zero_vector(),
            rotation: Rotation::Identity,
            velocity: Vec3::zero_vector(),
            angular_velocity: Vec3::zero_vector(),
            body_type: BodyKind::Dynamic,
            shape: None,
            friction: Single::of(BUILDER_FRICTION),
            restitution: Single::of(BUILDER_RESTITUTION),
            density: Single::of(BUILDER_DENSITY),
        }
    }

    pub open spec fn at(self, position: Vec3) -> BodySketch {
        BodySketch { position, ..self }
    }

    pub open spec fn turned(self, rotation: Rotation) -> BodySketch {
        BodySketch { rotation, ..self }
    }

    pub open spec fn moving(self, velocity: Vec3) -> BodySketch {
        BodySketch { velocity, ..self }
    }

    pub open spec fn spinning(self, angular_velocity: Vec3) -> BodySketch {
        BodySketch { angular_velocity, ..self }
    }

    pub open spec fn of_kind(self, body_type: BodyKind) -> BodySketch {
        BodySketch { body_type, ..self }
    }

    pub open spec fn shaped(self, shape: ShapeConfig) -> BodySketch {
        BodySketch { shape: Some(shape), ..self }
    }

    pub open spec fn with_friction(self, friction: Single) -> BodySketch {
        BodySketch { friction, ..self }
    }

    pub open spec fn with_restitution(self, restitution: Single) -> BodySketch {
        BodySketch { restitution, ..self }
    }

    pub open spec fn with_density(self, density: Single) -> BodySketch {
        BodySketch { density, ..self }
    }

    pub open spec fn made_of(self, material: MaterialConfig) -> BodySketch {
        BodySketch {
            friction: material.friction,
            restitution: material.restitution,
            density: material.density,
            ..self
        }
    }

    /// The body that `config` describes.
    pub open spec fn of_config(config: BodyConfig) -> BodySketch {
        let base = BodySketch::fresh(config.name@).at(config.position).of_kind(
            kind_of(config.body_type),
        ).made_of(config.material);
        let turned = match config.rotation {
            Some(q) => base.turned(Rotation::Quaternion { x: q[0], y: q[1], z: q[2], w: q[3] }),
            None => base,
        };
        let moving = match config.velocity {
            Some(v) => turned.moving(v),
            None => turned,
        };
        let spinning = match config.angular_velocity {
            Some(v) => moving.spinning(v),
            None => moving,
        };
        spinning.shaped(config.shape)
    }
}

/// How the engine moves a body of the given type: a static body is fixed,
/// a kinematic one is moved by position.
pub open spec fn kind_of(body_type: BodyType) -> BodyKind {
    match body_type {
        BodyType::Dynamic => BodyKind::Dynamic,
        BodyType::Static => BodyKind::Fixed,
        BodyType::Kinematic => BodyKind::KinematicPositionBased,
    }
}

impl BodyBuilder {
    /// A dynamic body called `name`, at rest at the origin.
    pub fn new(name: &str) -> (b: BodyBuilder)
        ensures
            b@ == BodySketch::fresh(name@),
    {
        BodyBuilder {
            name: String::from_str(name),
            position: Vec3::zero(),
            rotation: Rotation::Identity,
            velocity: Vec3::zero(),
            angular_velocity: Vec3::zero(),
            body_type: BodyKind::Dynamic,
            shape: None,
            friction: Single { bits: BUILDER_FRICTION },
            restitution: Single { bits: BUILDER_RESTITUTION },
            density: Single { bits: BUILDER_DENSITY },
        }
    }

    /// The body that `config` describes.
    pub fn from_config(config: &BodyConfig) -> (b: BodyBuilder)
        ensures
            b@ == BodySketch::of_config(*config),
    {
        let kind = match config.body_type {
            BodyType::Dynamic => BodyKind::Dynamic,
            BodyType::Static => BodyKind::Fixed,
            BodyType::Kinematic => BodyKind::KinematicPositionBased,
        };
        let mut builder = BodyBuilder::new(config.name.as_str()).position(config.position).body_type(
            kind,
        ).material(&config.material);

        if let Some(rotation) = config.rotation {
            builder = builder.rotation_quat(rotation[0], rotation[1], rotation[2], rotation[3]);
        }
        if let Some(velocity) = config.velocity {
            builder = builder.velocity(velocity);
        }
        if let Some(angular_velocity) = config.angular_velocity {
            builder = builder.angular_velocity(angular_velocity);
        }
        builder = match config.shape {
            ShapeConfig::Box { half_extents } => builder.box_shape(
                half_extents.x,
                half_extents.y,
                half_extents.z,
            ),
            ShapeConfig::Sphere { radius } => builder.sphere(radius),
            ShapeConfig::Capsule { half_height, radius } => builder.capsule(half_height, radius),
            ShapeConfig::Cylinder { half_height, radius } => builder.cylinder(half_height, radius),
        };
        builder
    }

    pub fn position(self, pos: Vec3) -> (b: BodyBuilder)
        ensures
            b@ == self@.at(pos),
    {
        let mut b = self;
        b.position = pos;
        b
    }

    pub fn position_xyz(self, x: Single, y: Single, z: Single) -> (b: BodyBuilder)
        ensures
            b@ == self@.at(xyz(x, y, z)),
    {
        let mut b = self;
        b.position = Vec3 { x, y, z };
        b
    }

    /// Turns the body by `angle` radians about `axis`.
    pub fn rotation(self, axis: Vec3, angle: Single) -> (b: BodyBuilder)
        ensures
            b@ == self@.turned(Rotation::AxisAngle { axis, angle }),
    {
        let mut b = self;
        b.rotation = Rotation::AxisAngle { axis, angle };
        b
    }

    /// Turns the body by the quaternion `(x, y, z, w)`.
    pub fn rotation_quat(self, x: Single, y: Single, z: Single, w: Single) -> (b: BodyBuilder)
        ensures
            b@ == self@.turned(Rotation::Quaternion { x, y, z, w }),
    {
        let mut b = self;
        b.rotation = Rotation::Quaternion { x, y, z, w };
        b
    }

    pub fn velocity(self, vel: Vec3) -> (b: BodyBuilder)
        ensures
            b@ == self@.moving(vel),
    {
        let mut b = self;
        b.velocity = vel;
        b
    }

    pub fn velocity_xyz(self, x: Single, y: Single, z: Single) -> (b: BodyBuilder)
        ensures
            b@ == self@.moving(xyz(x, y, z)),
    {
        let mut b = self;
        b.velocity = Vec3 { x, y, z };
        b
    }

    pub fn angular_velocity(self, vel: Vec3) -> (b: BodyBuilder)
        ensures
            b@ == self@.spinning(vel),
    {
        let mut b = self;
        b.angular_velocity = vel;
        b
    }

    pub fn body_type(self, body_type: BodyKind) -> (b: BodyBuilder)
        ensures
            b@ == self@.of_kind(body_type),
    {
        let mut b = self;
        b.body_type = body_type;
        b
    }

    pub fn dynamic(self) -> (b: BodyBuilder)
        ensures
            b@ == self@.of_kind(BodyKind::Dynamic),
    {
        self.body_type(BodyKind::Dynamic)
    }

    pub fn fixed(self) -> (b: BodyBuilder)
        ensures
            b@ == self@.of_kind(BodyKind::Fixed),
    {
        self.body_type(BodyKind::Fixed)
    }

    pub fn kinematic(self) -> (b: BodyBuilder)
        ensures
            b@ == self@.of_kind(BodyKind::KinematicPositionBased),
    {
        self.body_type(BodyKind::KinematicPositionBased)
    }

    /// Gives the body the shape of a box with the given half-extents.
    pub fn box_shape(self, half_x: Single, half_y: Single, half_z: Single) -> (b: BodyBuilder)
        ensures
            b@ == self@.shaped(ShapeConfig::Box { half_extents: xyz(half_x, half_y, half_z) }),
    {
        let mut b = self;
        b.shape = Some(ShapeConfig::Box { half_extents: Vec3 { x: half_x, y: half_y, z: half_z } });
        b
    }

    pub fn sphere(self, radius: Single) -> (b: BodyBuilder)
        ensures
            b@ == self@.shaped(ShapeConfig::Sphere { radius }),
    {
        let mut b = self;
        b.shape = Some(ShapeConfig::Sphere { radius });
        b
    }

    /// Gives the body the shape of a capsule along the vertical axis.
    pub fn capsule(self, half_height: Single, radius: Single) -> (b: BodyBuilder)
        ensures
            b@ == self@.shaped(ShapeConfig::Capsule { half_height, radius }),
    {
        let mut b = self;
        b.shape = Some(ShapeConfig::Capsule { half_height, radius });
        b
    }

    pub fn cylinder(self, half_height: Single, radius: Single) -> (b: BodyBuilder)
        ensures
            b@ == self@.shaped(ShapeConfig::Cylinder { half_height, radius }),
    {
        let mut b = self;
        b.shape = Some(ShapeConfig::Cylinder { half_height, radius });
        b
    }

    pub fn friction(self, friction: Single) -> (b: BodyBuilder)
        ensures
            b@ == self@.with_friction(friction),
    {
        let mut b = self;
        b.friction = friction;
        b
    }

    pub fn restitution(self, restitution: Single) -> (b: BodyBuilder)
        ensures
            b@ == self@.with_restitution(restitution),
    {
        let mut b = self;
        b.restitution = restitution;
        b
    }

    pub fn density(self, density: Single) -> (b: BodyBuilder)
        ensures
            b@ == self@.with_density(density),
    {
        let mut b = self;
        b.density = density;
        b
    }

    pub fn material(self, material: &MaterialConfig) -> (b: BodyBuilder)
        ensures
            b@ == self@.made_of(*material),
    {
        let mut b = self;
        b.friction = material.friction;
        b.restitution = material.restitution;
        b.density = material.density;
        b
    }
}

} // verus!
