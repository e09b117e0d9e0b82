//! The built-in scenarios: their parameters and the bodies they are made of.

use vstd::prelude::*;
use vstd::string::StringExecFns;
use crate::arith::{
    cos, cosine, count_to_single, narrow, narrowed, over, plus, product, quotient, sin, sine,
    single_of_count, sum, times, unit_ready, Operation,
};
use crate::body_builder::{xyz, BodyBuilder, BodyKind, BodySketch, Rotation};
use crate::error::SimuForgeError;
use crate::experiment::{BodyConfig, ParamValue, ScenarioConfig, ShapeConfig};
use crate::ieee::{Double, Single};
use crate::math::Vec3;
use crate::names::{lookup, NameMap};

verus! {

/// Bit pattern of binary32 `0.1`.
pub const TENTH: u32 = 0x3dcc_cccd;

/// Bit pattern of binary32 `0.3`.
pub const THREE_TENTHS: u32 = 0x3e99_999a;

/// Bit pattern of binary32 `0.5`.
pub const ONE_HALF: u32 = 0x3f00_0000;

/// Bit pattern of binary32 `-0.5`.
pub const MINUS_ONE_HALF: u32 = 0xbf00_0000;

/// Bit pattern of binary32 `0.6`.
pub const SIX_TENTHS: u32 = 0x3f19_999a;

/// Bit pattern of binary32 `0.8`.
pub const EIGHT_TENTHS: u32 = 0x3f4c_cccd;

/// Bit pattern of binary32 `0.9`.
pub const NINE_TENTHS: u32 = 0x3f66_6666;

/// Bit pattern of binary32 `1.0`.
pub const UNIT: u32 = 0x3f80_0000;

/// Bit pattern of binary32 `2.0`.
pub const TWO: u32 = 0x4000_0000;

/// Bit pattern of binary32 `5.0`.
pub const FIVE: u32 = 0x40a0_0000;

/// Bit pattern of binary32 `10.0`.
pub const TEN: u32 = 0x4120_0000;

/// Bit pattern of binary32 `20.0`.
pub const TWENTY: u32 = 0x41a0_0000;

/// Bit pattern of binary32 `50.0`.
pub const FIFTY: u32 = 0x4248_0000;

/// Bit pattern of binary32 `100.0`.
pub const ONE_HUNDRED: u32 = 0x42c8_0000;

/// A stack of boxes on a ground plane.
#[derive(Clone, Copy, Debug)]
pub struct BoxStackScenario {
    pub count: u32,
    pub box_size: [Single; 3],
    pub spacing: Single,
    pub friction: Single,
    pub restitution: Single,
}

/// A sphere rolling on a flat surface.
#[derive(Clone, Copy, Debug)]
pub struct RollingSphereScenario {
    pub radius: Single,
    pub initial_velocity: [Single; 3],
    pub friction: Single,
    pub restitution: Single,
    pub density: Single,
}

/// A ball dropped from a height onto the ground.
#[derive(Clone, Copy, Debug)]
pub struct BouncingBallScenario {
    pub radius: Single,
    pub drop_height: Single,
    pub restitution: Single,
    pub friction: Single,
    pub density: Single,
}

/// A box sliding down an inclined ramp.
#[derive(Clone, Copy, Debug)]
pub struct FrictionRampScenario {
    /// The incline, in radians.
    pub ramp_angle: Single,
    pub ramp_length: Single,
    pub box_size: Single,
    pub friction: Single,
    pub restitution: Single,
}

/// A scenario: one of the built-in ones with its parameters, or a list of
/// bodies.
#[derive(Clone, Debug)]
pub enum Scenario {
    BoxStack(BoxStackScenario),
    RollingSphere(RollingSphereScenario),
    BouncingBall(BouncingBallScenario),
    FrictionRamp(FrictionRampScenario),
    Custom(Vec<BodyConfig>),
}

/// The parameter `key` as a binary32 number, or `default` where it is
/// missing or no number.
pub open spec fn param_single<U: Fn(Operation, u64, u64) -> u64>(
    params: Seq<(Seq<char>, ParamValue)>,
    key: Seq<char>,
    default: Single,
    unit: &U,
) -> Single {
    match lookup(params, key) {
        Some(value) => match value.number {
            Some(number) => narrowed(unit, number),
            None => default,
        },
        None => default,
    }
}

/// The parameter `key` as an unsigned integer cut to 32 bits, or `default`
/// where it is missing or no unsigned integer.
pub open spec fn param_count(params: Seq<(Seq<char>, ParamValue)>, key: Seq<char>, default: u32)
    -> u32 {
    match lookup(params, key) {
        Some(value) => match value.count {
            Some(count) => (count % 0x1_0000_0000) as u32,
            None => default,
        },
        None => default,
    }
}

/// Item `i` of a list as a binary32 number, or `default` where the list is
/// shorter or the item is no number.
pub open spec fn item_single<U: Fn(Operation, u64, u64) -> u64>(
    items: Seq<Option<Double>>,
    i: int,
    default: Single,
    unit: &U,
) -> Single {
    if i < items.len() {
        match items[i] {
            Some(number) => narrowed(unit, number),
            None => default,
        }
    } else {
        default
    }
}

/// The parameter `key` as three binary32 numbers: the first three items of
/// a list, each replaced by its default where it is missing or no number,
/// or `default` where the parameter is missing or no list.
pub open spec fn param_triple<U: Fn(Operation, u64, u64) -> u64>(
    params: Seq<(Seq<char>, ParamValue)>,
    key: Seq<char>,
    default: [Single; 3],
    unit: &U,
) -> [Single; 3] {
    match lookup(params, key) {
        Some(value) => match value.items {
            Some(items) => [
                item_single(items@, 0, default[0], unit),
                item_single(items@, 1, default[1], unit),
                item_single(items@, 2, default[2], unit),
            ],
            None => default,
        },
        None => default,
    }
}

/// The parameter `key` as a binary32 number, or `default`.
pub fn get_f32<U: Fn(Operation, u64, u64) -> u64>(
    params: &NameMap<ParamValue>,
    key: &str,
    default: Single,
    unit: &U,
) -> (r: Single)
    requires
        unit_ready(unit),
    ensures
        r == param_single(params@, key@, default, unit),
{
    if let Some(value) = params.get(key) {
        if let Some(number) = value.number {
            return narrow(unit, number);
        }
    }
    default
}

/// The parameter `key` as an unsigned integer cut to 32 bits, or `default`.
pub fn get_u32(params: &NameMap<ParamValue>, key: &str, default: u32) -> (r: u32)
    ensures
        r == param_count(params@, key@, default),
{
    if let Some(value) = params.get(key) {
        if let Some(count) = value.count {
            return (count % 0x1_0000_0000) as u32;
        }
    }
    default
}

fn get_item<U: Fn(Operation, u64, u64) -> u64>(
    items: &Vec<Option<Double>>,
    i: usize,
    default: Single,
    unit: &U,
) -> (r: Single)
    requires
        unit_ready(unit),
    ensures
        r == item_single(items@, i as int, default, unit),
{
    if i < items.len() {
        if let Some(number) = items[i] {
            return narrow(unit, number);
        }
    }
    default
}

/// The parameter `key` as three binary32 numbers, or `default`.
pub fn get_vec3<U: Fn(Operation, u64, u64) -> u64>(
    params: &NameMap<ParamValue>,
    key: &str,
    default: [Single; 3],
    unit: &U,
) -> (r: [Single; 3])
    requires
        unit_ready(unit),
    ensures
        r == param_triple(params@, key@, default, unit),
{
    if let Some(value) = params.get(key) {
        if let Some(items) = &value.items {
            return [
                get_item(items, 0, default[0], unit),
                get_item(items, 1, default[1], unit),
                get_item(items, 2, default[2], unit),
            ];
        }
    }
    default
}

/// The text of one decimal digit.
pub open spec fn digit_text(d: nat) -> Seq<char> {
    if d == 0 {
        "0"@
    } else if d == 1 {
        "1"@
    } else if d == 2 {
        "2"@
    } else if d == 3 {
        "3"@
    } else if d == 4 {
        "4"@
    } else if d == 5 {
        "5"@
    } else if d == 6 {
        "6"@
    } else if d == 7 {
        "7"@
    } else if d == 8 {
        "8"@
    } else {
        "9"@
    }
}

/// The decimal digits of `n`, without a leading zero.
pub open spec fn decimal(n: nat) -> Seq<char>
    decreases n,
{
    if n < 10 {
        digit_text(n)
    } else {
        decimal(n / 10) + digit_text(n % 10)
    }
}

fn digit_str(d: u32) -> (s: &'static str)
    requires
        d < 10,
    ensures
        s@ == digit_text(d as nat),
{
    if d == 0 {
        "0"
    } else if d == 1 {
        "1"
    } else if d == 2 {
        "2"
    } else if d == 3 {
        "3"
    } else if d == 4 {
        "4"
    } else if d == 5 {
        "5"
    } else if d == 6 {
        "6"
    } else if d == 7 {
        "7"
    } else if d == 8 {
        "8"
    } else {
        "9"
    }
}

/// `n` in decimal digits.
pub fn decimal_text(n: u32) -> (text: String)
    ensures
        text@ == decimal(n as nat),
    decreases n,
{
    if n < 10 {
        String::from_str(digit_str(n))
    } else {
        decimal_text(n / 10).concat(digit_str(n % 10))
    }
}

impl BoxStackScenario {
    /// Ten unit boxes without gaps, of friction `0.5` and restitution `0.1`.
    pub open spec fn standard() -> BoxStackScenario {
        BoxStackScenario {
            count: 10,
            box_size: [Single::of(UNIT), Single::of(UNIT), Single::of(UNIT)],
            spacing: Single::of(0),
            friction: Single::of(ONE_HALF),
            restitution: Single::of(TENTH),
        }
    }

    /// The scenario that `params` describe, each missing parameter at its
    /// standard value.
    pub open spec fn of_params<U: Fn(Operation, u64, u64) -> u64>(
        params: Seq<(Seq<char>, ParamValue)>,
        unit: &U,
    ) -> BoxStackScenario {
        BoxStackScenario {
            count: param_count(params, "count"@, 10),
            box_size: param_triple(
                params,
                "box_size"@,
                [Single::of(UNIT), Single::of(UNIT), Single::of(UNIT)],
                unit,
            ),
            spacing: param_single(params, "spacing"@, Single::of(0), unit),
            friction: param_single(params, "friction"@, Single::of(ONE_HALF), unit),
            restitution: param_single(params, "restitution"@, Single::of(TENTH), unit),
        }
    }

    /// The ground under the stack: a fixed slab of 100 by 1 by 100, its top
    /// at height zero.
    pub open spec fn ground(&self) -> BodySketch {
        BodySketch::fresh("ground"@).at(
            xyz(Single::of(0), Single::of(MINUS_ONE_HALF), Single::of(0)),
        ).shaped(
            ShapeConfig::Box {
                half_extents: xyz(Single::of(FIFTY), Single::of(ONE_HALF), Single::of(FIFTY)),
            },
        ).of_kind(BodyKind::Fixed).with_friction(self.friction).with_restitution(self.restitution)
    }

    /// Half the size of a box along axis `axis`.
    pub open spec fn half_size<U: Fn(Operation, u64, u64) -> u64>(&self, axis: int, unit: &U)
        -> Single {
        quotient(unit, self.box_size[axis], Single::of(TWO))
    }

    /// The height of the centre of box `i`: half a box, and `i` times a box
    /// and a gap.
    pub open spec fn box_height<U: Fn(Operation, u64, u64) -> u64>(&self, i: nat, unit: &U)
        -> Single {
        sum(
            unit,
            self.half_size(1, unit),
            product(
                unit,
                sum(unit, self.box_size[1], self.spacing),
                single_of_count(unit, i as u64),
            ),
        )
    }

    /// Box `i` of the stack, called `box_` and `i`.
    pub open spec fn stacked_box<U: Fn(Operation, u64, u64) -> u64>(&self, i: nat, unit: &U)
        -> BodySketch {
        BodySketch::fresh("box_"@ + decimal(i)).at(
            xyz(Single::of(0), self.box_height(i, unit), Single::of(0)),
        ).shaped(
            ShapeConfig::Box {
                half_extents: xyz(
                    self.half_size(0, unit),
                    self.half_size(1, unit),
                    self.half_size(2, unit),
                ),
            },
        ).of_kind(BodyKind::Dynamic).with_friction(self.friction).with_restitution(
            self.restitution,
        )
    }

    /// The ground, then the boxes from the lowest up.
    pub open spec fn bodies<U: Fn(Operation, u64, u64) -> u64>(&self, unit: &U) -> Seq<BodySketch> {
        seq![self.ground()] + Seq::new(
            self.count as nat,
            |i: int| self.stacked_box(i as nat, unit),
        )
    }

    /// A stack of `count` boxes, everything else standard.
    pub fn new(count: u32) -> (s: BoxStackScenario)
        ensures
            s == (BoxStackScenario { count, ..BoxStackScenario::standard() }),
    {
        BoxStackScenario {
            count,
            box_size: [Single { bits: UNIT }, Single { bits: UNIT }, Single { bits: UNIT }],
            spacing: Single { bits: 0 },
            friction: Single { bits: ONE_HALF },
            restitution: Single { bits: TENTH },
        }
    }

    /// The scenario that `params` describe.
    pub fn from_params<U: Fn(Operation, u64, u64) -> u64>(
        params: &NameMap<ParamValue>,
        unit: &U,
    ) -> (s: BoxStackScenario)
        requires
            unit_ready(unit),
        ensures
            s == BoxStackScenario::of_params(params@, unit),
    {
        BoxStackScenario {
            count: get_u32(params, "count", 10),
            box_size: get_vec3(
                params,
                "box_size",
                [Single { bits: UNIT }, Single { bits: UNIT }, Single { bits: UNIT }],
                unit,
            ),
            spacing: get_f32(params, "spacing", Single { bits: 0 }, unit),
            friction: get_f32(params, "friction", Single { bits: ONE_HALF }, unit),
            restitution: get_f32(params, "restitution", Single { bits: TENTH }, unit),
        }
    }

    pub fn with_box_size(self, x: Single, y: Single, z: Single) -> (s: BoxStackScenario)
        ensures
            s == (BoxStackScenario { box_size: [x, y, z], ..self }),
    {
        BoxStackScenario { box_size: [x, y, z], ..self }
    }

    pub fn with_friction(self, friction: Single) -> (s: BoxStackScenario)
        ensures
            s == (BoxStackScenario { friction, ..self }),
    {
        BoxStackScenario { friction, ..self }
    }

    /// The bodies of the scenario, in the order in which they enter the scene.
    pub fn setup<U: Fn(Operation, u64, u64) -> u64>(&self, unit: &U) -> (bodies: Vec<BodyBuilder>)
        requires
            unit_ready(unit),
        ensures
            sketches(bodies@) == self.bodies(unit),
    {
        let two = Single { bits: TWO };
        let half_x = over(unit, self.box_size[0], two);
        let half_y = over(unit, self.box_size[1], two);
        let half_z = over(unit, self.box_size[2], two);
        let zero = Single { bits: 0 };

        let mut bodies: Vec<BodyBuilder> = Vec::new();
        bodies.push(
            BodyBuilder::new("ground").position_xyz(zero, Single { bits: MINUS_ONE_HALF }, zero)
                .box_shape(Single { bits: FIFTY }, Single { bits: ONE_HALF }, Single { bits: FIFTY })
                .fixed().friction(self.friction).restitution(self.restitution),
        );

        let mut i: u32 = 0;
        while i < self.count
            invariant
                unit_ready(unit),
                i <= self.count,
                half_x == self.half_size(0, unit),
                half_y == self.half_size(1, unit),
                half_z == self.half_size(2, unit),
                zero == Single::of(0),
                bodies@.len() == i + 1,
                bodies@[0]@ == self.ground(),
                forall|j: int| 0 <= j < i ==> (#[trigger] bodies@[j + 1])@ == self.stacked_box(j as nat, unit),
            decreases self.count - i,
        {
            let y = plus(
                unit,
                half_y,
                times(
                    unit,
                    plus(unit, self.box_size[1], self.spacing),
                    count_to_single(unit, i as u64),
                ),
            );
            let name = String::from_str("box_").concat(decimal_text(i).as_str());
            bodies.push(
                BodyBuilder::new(name.as_str()).position_xyz(zero, y, zero).box_shape(
                    half_x,
                    half_y,
                    half_z,
                ).dynamic().friction(self.friction).restitution(self.restitution),
            );
            i = i + 1;
        }
        proof {
            let expected = self.bodies(unit);
            assert(expected.len() == bodies@.len());
            assert forall|k: int| 0 <= k < bodies@.len() implies sketches(bodies@)[k]
                == expected[k] by {
                if k > 0 {
                    assert(bodies@[(k - 1) + 1]@ == self.stacked_box((k - 1) as nat, unit));
                }
            }
        }
        assert(sketches(bodies@) =~= self.bodies(unit));
        bodies
    }
}

impl Default for BoxStackScenario {
    fn default() -> (s: BoxStackScenario)
        ensures
            s == BoxStackScenario::standard(),
    {
        BoxStackScenario::new(10)
    }
}

/// What a list of builders describes.
pub open spec fn sketches(bodies: Seq<BodyBuilder>) -> Seq<BodySketch> {
    Seq::new(bodies.len(), |i: int| bodies[i]@)
}

impl RollingSphereScenario {
    /// A sphere of radius `0.5` and density `1.0` that starts at a speed of
    /// `5.0` along the first axis, of friction `0.5` and restitution `0.1`.
    pub open spec fn standard() -> RollingSphereScenario {
        RollingSphereScenario {
            radius: Single::of(ONE_HALF),
            initial_velocity: [Single::of(FIVE), Single::of(0), Single::of(0)],
            friction: Single::of(ONE_HALF),
            restitution: Single::of(TENTH),
            density: Single::of(UNIT),
        }
    }

    /// The scenario that `params` describe, each missing parameter at its
    /// standard value.
    pub open spec fn of_params<U: Fn(Operation, u64, u64) -> u64>(
        params: Seq<(Seq<char>, ParamValue)>,
        unit: &U,
    ) -> RollingSphereScenario {
        RollingSphereScenario {
            radius: param_single(params, "radius"@, Single::of(ONE_HALF), unit),
            initial_velocity: param_triple(
                params,
                "initial_velocity"@,
                [Single::of(FIVE), Single::of(0), Single::of(0)],
                unit,
            ),
            friction: param_single(params, "friction"@, Single::of(ONE_HALF), unit),
            restitution: param_single(params, "restitution"@, Single::of(TENTH), unit),
            density: param_single(params, "density"@, Single::of(UNIT), unit),
        }
    }

    /// The ground, a fixed slab of 200 by 1 by 20, then the sphere, resting
    /// on it and moving at its initial velocity.
    pub open spec fn bodies(&self) -> Seq<BodySketch> {
        seq![
            BodySketch::fresh("ground"@).at(
                xyz(Single::of(0), Single::of(MINUS_ONE_HALF), Single::of(0)),
            ).shaped(
                ShapeConfig::Box {
                    half_extents: xyz(
                        Single::of(ONE_HUNDRED),
                        Single::of(ONE_HALF),
                        Single::of(TEN),
                    ),
                },
            ).of_kind(BodyKind::Fixed).with_friction(self.friction).with_restitution(
                self.restitution,
            ),
            BodySketch::fresh("sphere"@).at(xyz(Single::of(0), self.radius, Single::of(0))).moving(
                xyz(self.initial_velocity[0], self.initial_velocity[1], self.initial_velocity[2]),
            ).shaped(ShapeConfig::Sphere { radius: self.radius }).of_kind(
                BodyKind::Dynamic,
            ).with_friction(self.friction).with_restitution(self.restitution).with_density(
                self.density,
            ),
        ]
    }

    /// The scenario that `params` describe.
    pub fn from_params<U: Fn(Operation, u64, u64) -> u64>(
        params: &NameMap<ParamValue>,
        unit: &U,
    ) -> (s: RollingSphereScenario)
        requires
            unit_ready(unit),
        ensures
            s == RollingSphereScenario::of_params(params@, unit),
    {
        RollingSphereScenario {
            radius: get_f32(params, "radius", Single { bits: ONE_HALF }, unit),
            initial_velocity: get_vec3(
                params,
                "initial_velocity",
                [Single { bits: FIVE }, Single { bits: 0 }, Single { bits: 0 }],
                unit,
            ),
            friction: get_f32(params, "friction", Single { bits: ONE_HALF }, unit),
            restitution: get_f32(params, "restitution", Single { bits: TENTH }, unit),
            density: get_f32(params, "density", Single { bits: UNIT }, unit),
        }
    }

    /// The bodies of the scenario, in the order in which they enter the scene.
    pub fn setup(&self) -> (bodies: Vec<BodyBuilder>)
        ensures
            sketches(bodies@) == self.bodies(),
    {
        let zero = Single { bits: 0 };
        let mut bodies: Vec<BodyBuilder> = Vec::new();
        bodies.push(
            BodyBuilder::new("ground").position_xyz(zero, Single { bits: MINUS_ONE_HALF }, zero)
                .box_shape(
                Single { bits: ONE_HUNDRED },
                Single { bits: ONE_HALF },
                Single { bits: TEN },
            ).fixed().friction(self.friction).restitution(self.restitution),
        );
        bodies.push(
            BodyBuilder::new("sphere").position_xyz(zero, self.radius, zero).velocity_xyz(
                self.initial_velocity[0],
                self.initial_velocity[1],
                self.initial_velocity[2],
            ).sphere(self.radius).dynamic().friction(self.friction).restitution(
                self.restitution,
            ).density(self.density),
        );
        assert(sketches(bodies@) =~= self.bodies());
        bodies
    }
}

impl Default for RollingSphereScenario {
    fn default() -> (s: RollingSphereScenario)
        ensures
            s == RollingSphereScenario::standard(),
    {
        RollingSphereScenario {
            radius: Single { bits: ONE_HALF },
            initial_velocity: [Single { bits: FIVE }, Single { bits: 0 }, Single { bits: 0 }],
            friction: Single { bits: ONE_HALF },
            restitution: Single { bits: TENTH },
            density: Single { bits: UNIT },
        }
    }
}

impl BouncingBallScenario {
    /// A ball of radius `0.5` and density `1.0` dropped from a height of
    /// `10.0`, of restitution `0.8` and friction `0.3`.
    pub open spec fn standard() -> BouncingBallScenario {
        BouncingBallScenario {
            radius: Single::of(ONE_HALF),
            drop_height: Single::of(TEN),
            restitution: Single::of(EIGHT_TENTHS),
            friction: Single::of(THREE_TENTHS),
            density: Single::of(UNIT),
        }
    }

    /// The scenario that `params` describe, each missing parameter at its
    /// standard value.
    pub open spec fn of_params<U: Fn(Operation, u64, u64) -> u64>(
        params: Seq<(Seq<char>, ParamValue)>,
        unit: &U,
    ) -> BouncingBallScenario {
        BouncingBallScenario {
            radius: param_single(params, "radius"@, Single::of(ONE_HALF), unit),
            drop_height: param_single(params, "drop_height"@, Single::of(TEN), unit),
            restitution: param_single(params, "restitution"@, Single::of(EIGHT_TENTHS), unit),
            friction: param_single(params, "friction"@, Single::of(THREE_TENTHS), unit),
            density: param_single(params, "density"@, Single::of(UNIT), unit),
        }
    }

    /// The ground, a fixed slab of 20 by 1 by 20, then the ball, its lowest
    /// point at the drop height.
    pub open spec fn bodies<U: Fn(Operation, u64, u64) -> u64>(&self, unit: &U) -> Seq<BodySketch> {
        seq![
            BodySketch::fresh("ground"@).at(
                xyz(Single::of(0), Single::of(MINUS_ONE_HALF), Single::of(0)),
            ).shaped(
                ShapeConfig::Box {
                    half_extents: xyz(Single::of(TEN), Single::of(ONE_HALF), Single::of(TEN)),
                },
            ).of_kind(BodyKind::Fixed).with_friction(self.friction).with_restitution(
                self.restitution,
            ),
            BodySketch::fresh("ball"@).at(
                xyz(Single::of(0), sum(unit, self.drop_height, self.radius), Single::of(0)),
            ).shaped(ShapeConfig::Sphere { radius: self.radius }).of_kind(
                BodyKind::Dynamic,
            ).with_friction(self.friction).with_restitution(self.restitution).with_density(
                self.density,
            ),
        ]
    }

    /// The scenario that `params` describe.
    pub fn from_params<U: Fn(Operation, u64, u64) -> u64>(
        params: &NameMap<ParamValue>,
        unit: &U,
    ) -> (s: BouncingBallScenario)
        requires
            unit_ready(unit),
        ensures
            s == BouncingBallScenario::of_params(params@, unit),
    {
        BouncingBallScenario {
            radius: get_f32(params, "radius", Single { bits: ONE_HALF }, unit),
            drop_height: get_f32(params, "drop_height", Single { bits: TEN }, unit),
            restitution: get_f32(params, "restitution", Single { bits: EIGHT_TENTHS }, unit),
            friction: get_f32(params, "friction", Single { bits: THREE_TENTHS }, unit),
            density: get_f32(params, "density", Single { bits: UNIT }, unit),
        }
    }

    /// The bodies of the scenario, in the order in which they enter the scene.
    pub fn setup<U: Fn(Operation, u64, u64) -> u64>(&self, unit: &U) -> (bodies: Vec<BodyBuilder>)
        requires
            unit_ready(unit),
        ensures
            sketches(bodies@) == self.bodies(unit),
    {
        let zero = Single { bits: 0 };
        let mut bodies: Vec<BodyBuilder> = Vec::new();
        bodies.push(
            BodyBuilder::new("ground").position_xyz(zero, Single { bits: MINUS_ONE_HALF }, zero)
                .box_shape(Single { bits: TEN }, Single { bits: ONE_HALF }, Single { bits: TEN })
                .fixed().friction(self.friction).restitution(self.restitution),
        );
        bodies.push(
            BodyBuilder::new("ball").position_xyz(
                zero,
                plus(unit, self.drop_height, self.radius),
                zero,
            ).sphere(self.radius).dynamic().friction(self.friction).restitution(
                self.restitution,
            ).density(self.density),
        );
        assert(sketches(bodies@) =~= self.bodies(unit));
        bodies
    }
}

impl Default for BouncingBallScenario {
    fn default() -> (s: BouncingBallScenario)
        ensures
            s == BouncingBallScenario::standard(),
    {
        BouncingBallScenario {
            radius: Single { bits: ONE_HALF },
            drop_height: Single { bits: TEN },
            restitution: Single { bits: EIGHT_TENTHS },
            friction: Single { bits: THREE_TENTHS },
            density: Single { bits: UNIT },
        }
    }
}

impl FrictionRampScenario {
    /// A ramp of length `10.0` inclined by `0.5` radians with a unit box on
    /// it, of friction `0.3` and restitution `0.1`.
    pub open spec fn standard() -> FrictionRampScenario {
        FrictionRampScenario {
            ramp_angle: Single::of(ONE_HALF),
            ramp_length: Single::of(TEN),
            box_size: Single::of(UNIT),
            friction: Single::of(THREE_TENTHS),
            restitution: Single::of(TENTH),
        }
    }

    /// The scenario that `params` describe, each missing parameter at its
    /// standard value.
    pub open spec fn of_params<U: Fn(Operation, u64, u64) -> u64>(
        params: Seq<(Seq<char>, ParamValue)>,
        unit: &U,
    ) -> FrictionRampScenario {
        FrictionRampScenario {
            ramp_angle: param_single(params, "ramp_angle"@, Single::of(ONE_HALF), unit),
            ramp_length: param_single(params, "ramp_length"@, Single::of(TEN), unit),
            box_size: param_single(params, "box_size"@, Single::of(UNIT), unit),
            friction: param_single(params, "friction"@, Single::of(THREE_TENTHS), unit),
            restitution: param_single(params, "restitution"@, Single::of(TENTH), unit),
        }
    }

    /// Half the rise of the ramp: `sin(angle) * length / 2`.
    pub open spec fn ramp_height<U: Fn(Operation, u64, u64) -> u64>(&self, unit: &U) -> Single {
        quotient(
            unit,
            product(unit, sine(unit, self.ramp_angle), self.ramp_length),
            Single::of(TWO),
        )
    }

    /// Half the run of the ramp: `cos(angle) * length / 2`.
    pub open spec fn ramp_offset<U: Fn(Operation, u64, u64) -> u64>(&self, unit: &U) -> Single {
        quotient(
            unit,
            product(unit, cosine(unit, self.ramp_angle), self.ramp_length),
            Single::of(TWO),
        )
    }

    /// The ramp: a fixed slab as long as the ramp, 1 thick and 4 wide,
    /// turned about the third axis by the incline.
    pub open spec fn ramp<U: Fn(Operation, u64, u64) -> u64>(&self, unit: &U) -> BodySketch {
        BodySketch::fresh("ramp"@).at(
            xyz(self.ramp_offset(unit), self.ramp_height(unit), Single::of(0)),
        ).turned(
            Rotation::AxisAngle {
                axis: xyz(Single::of(0), Single::of(0), Single::of(UNIT)),
                angle: self.ramp_angle.opposite(),
            },
        ).shaped(
            ShapeConfig::Box {
                half_extents: xyz(
                    quotient(unit, self.ramp_length, Single::of(TWO)),
                    Single::of(ONE_HALF),
                    Single::of(TWO),
                ),
            },
        ).of_kind(BodyKind::Fixed).with_friction(self.friction).with_restitution(self.restitution)
    }

    /// The floor at the foot of the ramp: a fixed slab of 40 by 1 by 10.
    pub open spec fn floor<U: Fn(Operation, u64, u64) -> u64>(&self, unit: &U) -> BodySketch {
        BodySketch::fresh("floor"@).at(
            xyz(
                sum(
                    unit,
                    product(unit, self.ramp_offset(unit), Single::of(TWO)),
                    Single::of(FIVE),
                ),
                Single::of(MINUS_ONE_HALF),
                Single::of(0),
            ),
        ).shaped(
            ShapeConfig::Box {
                half_extents: xyz(Single::of(TWENTY), Single::of(ONE_HALF), Single::of(FIVE)),
            },
        ).of_kind(BodyKind::Fixed).with_friction(self.friction).with_restitution(self.restitution)
    }

    /// The box that slides: it starts above the ramp at nine tenths of its
    /// length.
    pub open spec fn slider<U: Fn(Operation, u64, u64) -> u64>(&self, unit: &U) -> BodySketch {
        let half = quotient(unit, self.box_size, Single::of(TWO));
        let along = product(unit, self.ramp_length, Single::of(NINE_TENTHS));
        let start_x = product(unit, cosine(unit, self.ramp_angle), along);
        let start_y = sum(
            unit,
            sum(unit, product(unit, sine(unit, self.ramp_angle), along), half),
            Single::of(SIX_TENTHS),
        );
        BodySketch::fresh("slider"@).at(xyz(start_x, start_y, Single::of(0))).shaped(
            ShapeConfig::Box { half_extents: xyz(half, half, half) },
        ).of_kind(BodyKind::Dynamic).with_friction(self.friction).with_restitution(
            self.restitution,
        )
    }

    /// The ramp, the floor, the sliding box.
    pub open spec fn bodies<U: Fn(Operation, u64, u64) -> u64>(&self, unit: &U) -> Seq<BodySketch> {
        seq![self.ramp(unit), self.floor(unit), self.slider(unit)]
    }

    /// The scenario that `params` describe.
    pub fn from_params<U: Fn(Operation, u64, u64) -> u64>(
        params: &NameMap<ParamValue>,
        unit: &U,
    ) -> (s: FrictionRampScenario)
        requires
            unit_ready(unit),
        ensures
            s == FrictionRampScenario::of_params(params@, unit),
    {
        FrictionRampScenario {
            ramp_angle: get_f32(params, "ramp_angle", Single { bits: ONE_HALF }, unit),
            ramp_length: get_f32(params, "ramp_length", Single { bits: TEN }, unit),
            box_size: get_f32(params, "box_size", Single { bits: UNIT }, unit),
            friction: get_f32(params, "friction", Single { bits: THREE_TENTHS }, unit),
            restitution: get_f32(params, "restitution", Single { bits: TENTH }, unit),
        }
    }

    /// The bodies of the scenario, in the order in which they enter the scene.
    pub fn setup<U: Fn(Operation, u64, u64) -> u64>(&self, unit: &U) -> (bodies: Vec<BodyBuilder>)
        requires
            unit_ready(unit),
        ensures
            sketches(bodies@) == self.bodies(unit),
    {
        let zero = Single { bits: 0 };
        let two = Single { bits: TWO };
        let ramp_height = over(unit, times(unit, sin(unit, self.ramp_angle), self.ramp_length), two);
        let ramp_offset = over(unit, times(unit, cos(unit, self.ramp_angle), self.ramp_length), two);

        let mut bodies: Vec<BodyBuilder> = Vec::new();
        bodies.push(
            BodyBuilder::new("ramp").position_xyz(ramp_offset, ramp_height, zero).rotation(
                Vec3::new(zero, zero, Single { bits: UNIT }),
                self.ramp_angle.neg(),
            ).box_shape(over(unit, self.ramp_length, two), Single { bits: ONE_HALF }, two).fixed()
                .friction(self.friction).restitution(self.restitution),
        );
        bodies.push(
            BodyBuilder::new("floor").position_xyz(
                plus(unit, times(unit, ramp_offset, two), Single { bits: FIVE }),
                Single { bits: MINUS_ONE_HALF },
                zero,
            ).box_shape(Single { bits: TWENTY }, Single { bits: ONE_HALF }, Single { bits: FIVE })
                .fixed().friction(self.friction).restitution(self.restitution),
        );

        let box_half = over(unit, self.box_size, two);
        let along = times(unit, self.ramp_length, Single { bits: NINE_TENTHS });
        let start_x = times(unit, cos(unit, self.ramp_angle), along);
        let start_y = plus(
            unit,
            plus(unit, times(unit, sin(unit, self.ramp_angle), along), box_half),
            Single { bits: SIX_TENTHS },
        );
        bodies.push(
            BodyBuilder::new("slider").position_xyz(start_x, start_y, zero).box_shape(
                box_half,
                box_half,
                box_half,
            ).dynamic().friction(self.friction).restitution(self.restitution),
        );
        assert(sketches(bodies@) =~= self.bodies(unit));
        bodies
    }
}

impl Default for FrictionRampScenario {
    fn default() -> (s: FrictionRampScenario)
        ensures
            s == FrictionRampScenario::standard(),
    {
        FrictionRampScenario {
            ramp_angle: Single { bits: ONE_HALF },
            ramp_length: Single { bits: TEN },
            box_size: Single { bits: UNIT },
            friction: Single { bits: THREE_TENTHS },
            restitution: Single { bits: TENTH },
        }
    }
}

/// The bodies that a list of descriptions gives, one for one.
pub open spec fn described(configs: Seq<BodyConfig>) -> Seq<BodySketch> {
    Seq::new(configs.len(), |i: int| BodySketch::of_config(configs[i]))
}

impl Scenario {
    /// What the scenario is called.
    pub open spec fn title(&self) -> Seq<char> {
        match self {
            Scenario::BoxStack(_) => "box_stack"@,
            Scenario::RollingSphere(_) => "rolling_sphere"@,
            Scenario::BouncingBall(_) => "bouncing_ball"@,
            Scenario::FrictionRamp(_) => "friction_ramp"@,
            Scenario::Custom(_) => "custom"@,
        }
    }

    /// What the scenario is there for.
    pub open spec fn purpose(&self) -> Seq<char> {
        match self {
            Scenario::BoxStack(_) =>
                "Stack of boxes on a ground plane, tests stability and contact handling"@,
            Scenario::RollingSphere(_) =>
                "Sphere rolling on a flat surface, tests friction and angular momentum"@,
            Scenario::BouncingBall(_) =>
                "Ball dropped from height, tests restitution and energy conservation"@,
            Scenario::FrictionRamp(_) =>
                "Object sliding down a ramp, tests friction coefficient accuracy"@,
            Scenario::Custom(_) => "Custom user-defined scenario"@,
        }
    }

    /// The bodies the scenario is made of.
    pub open spec fn bodies<U: Fn(Operation, u64, u64) -> u64>(&self, unit: &U) -> Seq<BodySketch> {
        match self {
            Scenario::BoxStack(s) => s.bodies(unit),
            Scenario::RollingSphere(s) => s.bodies(),
            Scenario::BouncingBall(s) => s.bodies(unit),
            Scenario::FrictionRamp(s) => s.bodies(unit),
            Scenario::Custom(configs) => described(configs@),
        }
    }

    /// The name of the scenario.
    pub fn name(&self) -> (r: &'static str)
        ensures
            r@ == self.title(),
    {
        match self {
            Scenario::BoxStack(_) => "box_stack",
            Scenario::RollingSphere(_) => "rolling_sphere",
            Scenario::BouncingBall(_) => "bouncing_ball",
            Scenario::FrictionRamp(_) => "friction_ramp",
            Scenario::Custom(_) => "custom",
        }
    }

    /// A sentence on what the scenario tests.
    pub fn description(&self) -> (r: &'static str)
        ensures
            r@ == self.purpose(),
    {
        match self {
            Scenario::BoxStack(_) =>
                "Stack of boxes on a ground plane, tests stability and contact handling",
            Scenario::RollingSphere(_) =>
                "Sphere rolling on a flat surface, tests friction and angular momentum",
            Scenario::BouncingBall(_) =>
                "Ball dropped from height, tests restitution and energy conservation",
            Scenario::FrictionRamp(_) =>
                "Object sliding down a ramp, tests friction coefficient accuracy",
            Scenario::Custom(_) => "Custom user-defined scenario",
        }
    }

    /// The bodies of the scenario, in the order in which they enter the scene.
    pub fn setup<U: Fn(Operation, u64, u64) -> u64>(&self, unit: &U) -> (bodies: Vec<BodyBuilder>)
        requires
            unit_ready(unit),
        ensures
            sketches(bodies@) == self.bodies(unit),
    {
        match self {
            Scenario::BoxStack(s) => s.setup(unit),
            Scenario::RollingSphere(s) => s.setup(),
            Scenario::BouncingBall(s) => s.setup(unit),
            Scenario::FrictionRamp(s) => s.setup(unit),
            Scenario::Custom(configs) => {
                let mut bodies: Vec<BodyBuilder> = Vec::new();
                let mut i: usize = 0;
                while i < configs.len()
                    invariant
                        i <= configs@.len(),
                        bodies@.len() == i,
                        forall|j: int|
                            0 <= j < i ==> (#[trigger] bodies@[j])@ == BodySketch::of_config(
                                configs@[j],
                            ),
                    decreases configs.len() - i,
                {
                    bodies.push(BodyBuilder::from_config(&configs[i]));
                    i = i + 1;
                }
                assert(sketches(bodies@) =~= described(configs@));
                bodies
            },
        }
    }
}

/// Which built-in scenario a name stands for.
#[derive(Clone, Copy, Debug, PartialEq, Eq, Structural)]
pub enum Builtin {
    BoxStack,
    RollingSphere,
    BouncingBall,
    FrictionRamp,
}

/// The built-in scenario called `name`, if there is one. The last three go
/// by a short name too.
pub open spec fn builtin_named(name: Seq<char>) -> Option<Builtin> {
    if name == "box_stack"@ {
        Some(Builtin::BoxStack)
    } else if name == "rolling_sphere"@ || name == "rolling"@ {
        Some(Builtin::RollingSphere)
    } else if name == "bouncing_ball"@ || name == "bouncing"@ {
        Some(Builtin::BouncingBall)
    } else if name == "friction_ramp"@ || name == "ramp"@ {
        Some(Builtin::FrictionRamp)
    } else {
        None
    }
}

/// The built-in scenario called `name`, if there is one.
pub fn find_builtin(name: &str) -> (r: Option<Builtin>)
    ensures
        r == builtin_named(name@),
{
    let name = String::from_str(name);
    if name == String::from_str("box_stack") {
        Some(Builtin::BoxStack)
    } else if name == String::from_str("rolling_sphere") || name == String::from_str("rolling") {
        Some(Builtin::RollingSphere)
    } else if name == String::from_str("bouncing_ball") || name == String::from_str("bouncing") {
        Some(Builtin::BouncingBall)
    } else if name == String::from_str("friction_ramp") || name == String::from_str("ramp") {
        Some(Builtin::FrictionRamp)
    } else {
        None
    }
}

fn duplicate(bodies: &Vec<BodyConfig>) -> (r: Vec<BodyConfig>)
    ensures
        r@ == bodies@,
{
    let mut copies: Vec<BodyConfig> = Vec::new();
    let mut i: usize = 0;
    while i < bodies.len()
        invariant
            i <= bodies@.len(),
            copies@ == bodies@.take(i as int),
        decreases bodies.len() - i,
    {
        let body = &bodies[i];
        copies.push(
            BodyConfig {
                name: body.name.clone(),
                shape: body.shape,
                position: body.position,
                rotation: body.rotation,
                velocity: body.velocity,
                angular_velocity: body.angular_velocity,
                body_type: body.body_type,
                material: body.material,
            },
        );
        assert(copies@ =~= bodies@.take(i + 1));
        i = i + 1;
    }
    assert(bodies@.take(i as int) =~= bodies@);
    copies
}

/// The scenario that `config` asks for: the built-in one of that name with
/// the parameters given, or the bodies listed. A name that no built-in
/// scenario has is an error that carries the name.
pub fn create_scenario<U: Fn(Operation, u64, u64) -> u64>(config: &ScenarioConfig, unit: &U) -> (r:
    Result<Scenario, SimuForgeError>)
    requires
        unit_ready(unit),
    ensures
        creates(*config, r, unit),
{
    match config {
        ScenarioConfig::Builtin { name, params } => match find_builtin(name.as_str()) {
            Some(Builtin::BoxStack) => Ok(
                Scenario::BoxStack(BoxStackScenario::from_params(params, unit)),
            ),
            Some(Builtin::RollingSphere) => Ok(
                Scenario::RollingSphere(RollingSphereScenario::from_params(params, unit)),
            ),
            Some(Builtin::BouncingBall) => Ok(
                Scenario::BouncingBall(BouncingBallScenario::from_params(params, unit)),
            ),
            Some(Builtin::FrictionRamp) => Ok(
                Scenario::FrictionRamp(FrictionRampScenario::from_params(params, unit)),
            ),
            None => Err(SimuForgeError::ScenarioNotFound(name.clone())),
        },
        ScenarioConfig::Custom { bodies } => Ok(Scenario::Custom(duplicate(bodies))),
    }
}

/// Whether `r` is what `config` asks for.
pub open spec fn creates<U: Fn(Operation, u64, u64) -> u64>(
    config: ScenarioConfig,
    r: Result<Scenario, SimuForgeError>,
    unit: &U,
) -> bool {
    match config {
        ScenarioConfig::Builtin { name, params } => match builtin_named(name@) {
            Some(Builtin::BoxStack) => r matches Ok(Scenario::BoxStack(s)) && s
                == BoxStackScenario::of_params(params@, unit),
            Some(Builtin::RollingSphere) => r matches Ok(Scenario::RollingSphere(s)) && s
                == RollingSphereScenario::of_params(params@, unit),
            Some(Builtin::BouncingBall) => r matches Ok(Scenario::BouncingBall(s)) && s
                == BouncingBallScenario::of_params(params@, unit),
            Some(Builtin::FrictionRamp) => r matches Ok(Scenario::FrictionRamp(s)) && s
                == FrictionRampScenario::of_params(params@, unit),
            None => r matches Err(SimuForgeError::ScenarioNotFound(n)) && n@ == name@,
        },
        ScenarioConfig::Custom { bodies } => r matches Ok(Scenario::Custom(b)) && b@ == bodies@,
    }
}

/// The bodies of the scenario that `config` asks for, if it asks for one
/// that exists.
pub open spec fn configured_bodies<U: Fn(Operation, u64, u64) -> u64>(
    config: ScenarioConfig,
    unit: &U,
) -> Option<Seq<BodySketch>> {
    match config {
        ScenarioConfig::Builtin { name, params } => match builtin_named(name@) {
            Some(Builtin::BoxStack) => Some(BoxStackScenario::of_params(params@, unit).bodies(unit)),
            Some(Builtin::RollingSphere) => Some(
                RollingSphereScenario::of_params(params@, unit).bodies(),
            ),
            Some(Builtin::BouncingBall) => Some(
                BouncingBallScenario::of_params(params@, unit).bodies(unit),
            ),
            Some(Builtin::FrictionRamp) => Some(
                FrictionRampScenario::of_params(params@, unit).bodies(unit),
            ),
            None => None,
        },
        ScenarioConfig::Custom { bodies } => Some(described(bodies@)),
    }
}

/// A scenario that was created for `config` is made of the bodies that
/// `config` asks for.
pub proof fn lemma_created_bodies<U: Fn(Operation, u64, u64) -> u64>(
    config: ScenarioConfig,
    scenario: Scenario,
    unit: &U,
)
    requires
        creates(config, Ok(scenario), unit),
    ensures
        configured_bodies(config, unit) == Some(scenario.bodies(unit)),
{
}

} // verus!
