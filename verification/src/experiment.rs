//! The description of an experiment and the rules it has to meet.

use vstd::prelude::*;
use vstd::string::StringExecFns;
use crate::arith::{double_difference, double_minus, unit_ready, Operation};
use crate::ieee::{Double, Single};
use crate::math::Vec3;
use crate::names::NameMap;

verus! {

/// Bit pattern of the binary32 default timestep, `1.0 / 60.0`.
pub const DEFAULT_TIMESTEP: u32 = 0x3c88_8889;

/// Bit pattern of the binary32 default vertical gravity, `-9.81`.
pub const DEFAULT_GRAVITY_Y: u32 = 0xc11c_f5c3;

/// Bit pattern of the binary32 default friction, `0.5`.
pub const DEFAULT_FRICTION: u32 = 0x3f00_0000;

/// Bit pattern of the binary32 default restitution, `0.3`.
pub const DEFAULT_RESTITUTION: u32 = 0x3e99_999a;

/// Bit pattern of the binary32 default density, `1.0`.
pub const DEFAULT_DENSITY: u32 = 0x3f80_0000;

/// Bit pattern of the binary64 tolerance of an `equals` rule that names none, `1e-6`.
pub const DEFAULT_TOLERANCE: u64 = 0x3eb0_c6f7_a0b5_ed8d;

/// Number of steps of an experiment that names no duration.
pub const DEFAULT_STEPS: u64 = 600;

/// A versioned document that describes one experiment.
#[derive(Clone, Debug)]
pub struct ExperimentSpec {
    pub api_version: String,
    pub kind: String,
    pub metadata: ExperimentMetadata,
    pub spec: ExperimentConfig,
}

/// Who the experiment is.
#[derive(Clone, Debug)]
pub struct ExperimentMetadata {
    pub name: String,
    pub description: Option<String>,
    pub tags: Vec<String>,
}

/// What the experiment runs and what it is held to.
#[derive(Clone, Debug)]
pub struct ExperimentConfig {
    pub physics: PhysicsConfig,
    pub duration: DurationConfig,
    pub scenario: ScenarioConfig,
    pub metrics: MetricsConfig,
    pub criteria: NameMap<CriteriaConfig>,
}

/// How the engine is driven.
#[derive(Clone, Debug)]
pub struct PhysicsConfig {
    /// Seconds per step.
    pub timestep: Single,
    pub gravity: Vec3,
    pub solver_iterations: u32,
    pub enhanced_determinism: bool,
    pub seed: Option<u64>,
}

/// How long the experiment runs.
#[derive(Clone, Copy, Debug)]
pub enum DurationConfig {
    /// A number of steps.
    Fixed { steps: u64 },
    /// A simulated time, in seconds.
    Time { seconds: Single },
    /// Until the scene is at rest, but no longer than `max_steps`.
    UntilStable { max_steps: u64, threshold: Single },
}

/// One parameter of a built-in scenario, as far as a scenario reads it.
#[derive(Clone, Debug)]
pub struct ParamValue {
    /// The value as a number, where it is one.
    pub number: Option<Double>,
    /// The value as an unsigned integer, where it is one.
    pub count: Option<u64>,
    /// Where the value is a list: each item as a number, where it is one.
    pub items: Option<Vec<Option<Double>>>,
}

/// What the scene is made of.
#[derive(Clone, Debug)]
pub enum ScenarioConfig {
    /// A built-in scenario by name, with its parameters.
    Builtin { name: String, params: NameMap<ParamValue> },
    /// An explicit list of bodies.
    Custom { bodies: Vec<BodyConfig> },
}

/// One body of a custom scenario.
#[derive(Clone, Debug)]
pub struct BodyConfig {
    pub name: String,
    pub shape: ShapeConfig,
    pub position: Vec3,
    /// A quaternion as `[x, y, z, w]`.
    pub rotation: Option<[Single; 4]>,
    pub velocity: Option<Vec3>,
    pub angular_velocity: Option<Vec3>,
    pub body_type: BodyType,
    pub material: MaterialConfig,
}

/// How a body moves.
#[derive(Clone, Copy, Debug, PartialEq, Eq, Structural)]
pub enum BodyType {
    /// Forces apply.
    Dynamic,
    /// Immovable.
    Static,
    /// Driven from outside.
    Kinematic,
}

/// The shape of a body.
#[derive(Clone, Copy, Debug)]
pub enum ShapeConfig {
    Box { half_extents: Vec3 },
    Sphere { radius: Single },
    Capsule { half_height: Single, radius: Single },
    Cylinder { half_height: Single, radius: Single },
}

/// The surface and mass properties of a body.
#[derive(Clone, Copy, Debug)]
pub struct MaterialConfig {
    pub friction: Single,
    pub restitution: Single,
    pub density: Single,
}

/// Names of the metrics to record. Advisory: every metric is computed.
#[derive(Clone, Debug)]
pub struct MetricsConfig {
    pub per_frame: Vec<String>,
    pub aggregate: Vec<String>,
}

/// A threshold rule on one aggregate metric. The parts combine; a rule
/// without parts accepts every value.
#[derive(Clone, Copy, Debug)]
pub struct CriteriaConfig {
    pub min: Option<Double>,
    pub max: Option<Double>,
    pub equals: Option<Double>,
    pub tolerance: Option<Double>,
}

/// The timestep used when an experiment names none.
pub fn default_timestep() -> (t: Single)
    ensures
        t.bits == DEFAULT_TIMESTEP,
{
    Single { bits: DEFAULT_TIMESTEP }
}

/// The gravity used when an experiment names none: `(0, -9.81, 0)`.
pub fn default_gravity() -> (g: Vec3)
    ensures
        g.x.bits == 0,
        g.y.bits == DEFAULT_GRAVITY_Y,
        g.z.bits == 0,
{
    Vec3 { x: Single { bits: 0 }, y: Single { bits: DEFAULT_GRAVITY_Y }, z: Single { bits: 0 } }
}

/// The number of solver iterations used when an experiment names none.
pub fn default_solver_iterations() -> (n: u32)
    ensures
        n == 8,
{
    8
}

/// Whether the engine runs deterministically when an experiment does not say.
pub fn default_enhanced_determinism() -> (on: bool)
    ensures
        on,
{
    true
}

/// The kind of a body that names none.
pub fn default_body_type() -> (kind: BodyType)
    ensures
        kind == BodyType::Dynamic,
{
    BodyType::Dynamic
}

/// The friction of a material that names none.
pub fn default_friction() -> (f: Single)
    ensures
        f.bits == DEFAULT_FRICTION,
{
    Single { bits: DEFAULT_FRICTION }
}

/// The restitution of a material that names none.
pub fn default_restitution() -> (r: Single)
    ensures
        r.bits == DEFAULT_RESTITUTION,
{
    Single { bits: DEFAULT_RESTITUTION }
}

/// The density of a material that names none.
pub fn default_density() -> (d: Single)
    ensures
        d.bits == DEFAULT_DENSITY,
{
    Single { bits: DEFAULT_DENSITY }
}

impl Default for PhysicsConfig {
    fn default() -> (c: PhysicsConfig)
        ensures
            c.timestep.bits == DEFAULT_TIMESTEP,
            c.gravity.x.bits == 0,
            c.gravity.y.bits == DEFAULT_GRAVITY_Y,
            c.gravity.z.bits == 0,
            c.solver_iterations == 8,
            c.enhanced_determinism,
            c.seed.is_none(),
    {
        PhysicsConfig {
            timestep: default_timestep(),
            gravity: default_gravity(),
            solver_iterations: default_solver_iterations(),
            enhanced_determinism: default_enhanced_determinism(),
            seed: None,
        }
    }
}

impl Default for DurationConfig {
    fn default() -> (d: DurationConfig)
        ensures
            d == (DurationConfig::Fixed { steps: DEFAULT_STEPS }),
    {
        DurationConfig::Fixed { steps: DEFAULT_STEPS }
    }
}

impl Default for MaterialConfig {
    fn default() -> (m: MaterialConfig)
        ensures
            m.friction.bits == DEFAULT_FRICTION,
            m.restitution.bits == DEFAULT_RESTITUTION,
            m.density.bits == DEFAULT_DENSITY,
    {
        MaterialConfig {
            friction: default_friction(),
            restitution: default_restitution(),
            density: default_density(),
        }
    }
}

impl Default for MetricsConfig {
    fn default() -> (m: MetricsConfig)
        ensures
            m.per_frame@.len() == 0,
            m.aggregate@.len() == 0,
    {
        MetricsConfig { per_frame: Vec::new(), aggregate: Vec::new() }
    }
}

/// The views of a list of strings.
pub open spec fn texts(list: Seq<String>) -> Seq<Seq<char>> {
    Seq::new(list.len(), |i: int| list[i]@)
}

impl ExperimentSpec {
    /// The only supported `apiVersion`.
    pub open spec fn supported_version() -> Seq<char> {
        "simuforge/v1"@
    }

    /// The only supported `kind`.
    pub open spec fn supported_kind() -> Seq<char> {
        "Experiment"@
    }

    pub open spec fn version_ok(&self) -> bool {
        self.api_version@ == Self::supported_version()
    }

    pub open spec fn kind_ok(&self) -> bool {
        self.kind@ == Self::supported_kind()
    }

    pub open spec fn name_ok(&self) -> bool {
        self.metadata.name@.len() > 0
    }

    /// The timestep is above `0.0`, which a NaN is not.
    pub open spec fn timestep_ok(&self) -> bool {
        Single::of(0).below(self.spec.physics.timestep)
    }

    pub open spec fn iterations_ok(&self) -> bool {
        self.spec.physics.solver_iterations != 0
    }

    /// Whether no rule is violated.
    pub open spec fn valid(&self) -> bool {
        &&& self.version_ok()
        &&& self.kind_ok()
        &&& self.name_ok()
        &&& self.timestep_ok()
        &&& self.iterations_ok()
    }

    pub open spec fn version_message(&self) -> Seq<char> {
        "Unsupported API version: "@ + self.api_version@
    }

    pub open spec fn kind_message(&self) -> Seq<char> {
        "Unsupported kind: "@ + self.kind@
    }

    pub open spec fn name_message() -> Seq<char> {
        "Experiment name cannot be empty"@
    }

    pub open spec fn timestep_message() -> Seq<char> {
        "Timestep must be positive"@
    }

    pub open spec fn iterations_message() -> Seq<char> {
        "Solver iterations must be at least 1"@
    }

    /// `message` if the rule is violated, nothing otherwise.
    pub open spec fn unless(ok: bool, message: Seq<char>) -> Seq<Seq<char>> {
        if ok {
            Seq::empty()
        } else {
            seq![message]
        }
    }

    /// One message for each violated rule, in the order of the rules.
    pub open spec fn violations(&self) -> Seq<Seq<char>> {
        Self::unless(self.version_ok(), self.version_message()) + Self::unless(
            self.kind_ok(),
            self.kind_message(),
        ) + Self::unless(self.name_ok(), Self::name_message()) + Self::unless(
            self.timestep_ok(),
            Self::timestep_message(),
        ) + Self::unless(self.iterations_ok(), Self::iterations_message())
    }

    /// Checks every rule and reports all that are violated together.
    pub fn validate(&self) -> (r: Result<(), Vec<String>>)
        ensures
            r.is_ok() <==> self.valid(),
            r matches Err(errors) ==> texts(errors@) == self.violations(),
    {
        let mut errors: Vec<String> = Vec::new();
        assert(texts(errors@) =~= Seq::<Seq<char>>::empty());
        let ghost v0 = Self::unless(self.version_ok(), self.version_message());
        let ghost v1 = v0 + Self::unless(self.kind_ok(), self.kind_message());
        let ghost v2 = v1 + Self::unless(self.name_ok(), Self::name_message());
        let ghost v3 = v2 + Self::unless(self.timestep_ok(), Self::timestep_message());
        let ghost v4 = v3 + Self::unless(self.iterations_ok(), Self::iterations_message());

        if !(self.api_version == String::from_str("simuforge/v1")) {
            let message = String::from_str("Unsupported API version: ").concat(
                self.api_version.as_str(),
            );
            errors.push(message);
        }
        assert(texts(errors@) =~= v0);

        if !(self.kind == String::from_str("Experiment")) {
            let message = String::from_str("Unsupported kind: ").concat(self.kind.as_str());
            errors.push(message);
        }
        assert(texts(errors@) =~= v1);

        if self.metadata.name.as_str().is_empty() {
            errors.push(String::from_str("Experiment name cannot be empty"));
        }
        assert(texts(errors@) =~= v2);

        if !self.spec.physics.timestep.gt(Single { bits: 0 }) {
            errors.push(String::from_str("Timestep must be positive"));
        }
        assert(texts(errors@) =~= v3);

        if self.spec.physics.solver_iterations == 0 {
            errors.push(String::from_str("Solver iterations must be at least 1"));
        }
        assert(texts(errors@) =~= v4);

        if errors.is_empty() {
            Ok(())
        } else {
            Err(errors)
        }
    }
}

/// A description without violation is one that meets all five rules, and a
/// violated rule always shows: its message is among the violations, which
/// are as many as the rules that are violated. A timestep breaks its rule
/// exactly where it is `<= 0.0` or no number.
pub proof fn lemma_violations(e: &ExperimentSpec)
    ensures
        e.valid() <==> e.violations().len() == 0,
        !e.version_ok() ==> e.violations().contains(e.version_message()),
        !e.kind_ok() ==> e.violations().contains(e.kind_message()),
        !e.name_ok() ==> e.violations().contains(ExperimentSpec::name_message()),
        !e.timestep_ok() ==> e.violations().contains(ExperimentSpec::timestep_message()),
        !e.timestep_ok() <==> e.spec.physics.timestep.at_most(Single::of(0))
            || e.spec.physics.timestep.nan(),
        !e.iterations_ok() ==> e.violations().contains(ExperimentSpec::iterations_message()),
        e.violations().len() == (if e.version_ok() { 0int } else { 1 }) + (if e.kind_ok() { 0int } else { 1 })
            + (if e.name_ok() { 0int } else { 1 }) + (if e.timestep_ok() { 0int } else { 1 }) + (if e.iterations_ok() { 0int } else { 1 }),
{
    let a = ExperimentSpec::unless(e.version_ok(), e.version_message());
    let b = ExperimentSpec::unless(e.kind_ok(), e.kind_message());
    let c = ExperimentSpec::unless(e.name_ok(), ExperimentSpec::name_message());
    let d = ExperimentSpec::unless(e.timestep_ok(), ExperimentSpec::timestep_message());
    let f = ExperimentSpec::unless(e.iterations_ok(), ExperimentSpec::iterations_message());
    let v = e.violations();
    assert(v == a + b + c + d + f);
    if !e.version_ok() {
        assert(v[0] == e.version_message());
    }
    if !e.kind_ok() {
        assert(v[a.len() as int] == e.kind_message());
    }
    if !e.name_ok() {
        assert(v[(a.len() + b.len()) as int] == ExperimentSpec::name_message());
    }
    if !e.timestep_ok() {
        assert(v[(a.len() + b.len() + c.len()) as int] == ExperimentSpec::timestep_message());
    }
    if !e.iterations_ok() {
        assert(v[(a.len() + b.len() + c.len() + d.len()) as int]
            == ExperimentSpec::iterations_message());
    }
}

impl CriteriaConfig {
    /// The tolerance of the `equals` part: the one named, or `1e-6`.
    pub open spec fn allowed_deviation(&self) -> Double {
        match self.tolerance {
            Some(t) => t,
            None => Double::of(DEFAULT_TOLERANCE),
        }
    }

    /// Whether `value` is not below the minimum, where there is one.
    pub open spec fn min_ok(&self, value: Double) -> bool {
        self.min matches Some(m) ==> !value.below(m)
    }

    /// Whether `value` is not above the maximum, where there is one.
    pub open spec fn max_ok(&self, value: Double) -> bool {
        self.max matches Some(m) ==> !m.below(value)
    }

    /// Whether `value` is no further from `equals` than the tolerance, where
    /// `equals` is set: `|value - equals|` is not above the tolerance.
    pub open spec fn equals_ok<U: Fn(Operation, u64, u64) -> u64>(
        &self,
        value: Double,
        unit: &U,
    ) -> bool {
        self.equals matches Some(e) ==> !self.allowed_deviation().below(
            double_difference(unit, value, e).absolute(),
        )
    }

    /// Whether the rule accepts `value`.
    pub open spec fn accepts<U: Fn(Operation, u64, u64) -> u64>(
        &self,
        value: Double,
        unit: &U,
    ) -> bool {
        self.min_ok(value) && self.max_ok(value) && self.equals_ok(value, unit)
    }

    /// Whether `value` passes: it is not below `min`, not above `max` and not
    /// further from `equals` than the tolerance, each where it is set.
    pub fn evaluate<U: Fn(Operation, u64, u64) -> u64>(&self, value: Double, unit: &U) -> (passed:
        bool)
        requires
            unit_ready(unit),
        ensures
            passed == self.accepts(value, unit),
    {
        if let Some(min) = self.min {
            if value.lt(min) {
                return false;
            }
        }
        if let Some(max) = self.max {
            if value.gt(max) {
                return false;
            }
        }
        if let Some(equals) = self.equals {
            let tolerance = match self.tolerance {
                Some(t) => t,
                None => Double { bits: DEFAULT_TOLERANCE },
            };
            if double_minus(unit, value, equals).abs().gt(tolerance) {
                return false;
            }
        }
        true
    }
}

} // verus!
