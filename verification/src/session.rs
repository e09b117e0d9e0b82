//! A simulation that is stepped from outside, one frame at a time, and the
//! catalogue of built-in scenarios.

use vstd::prelude::*;
use vstd::string::StringExecFns;
use crate::arith::{unit_ready, Operation};
use crate::body_builder::BodyBuilder;
use crate::error::SimuForgeError;
use crate::experiment::{texts, ExperimentSpec};
use crate::ieee::Single;
use crate::metrics::{lemma_totals_bounded, AggregateMetrics, MetricFrame};
use crate::report::{results_after, verdict, CriterionResult, SimulationReport};
use crate::runner::{
    entered, join, joined, scenario_name, sketch_names, stage, staged, steps_of, target_steps,
};
use crate::scenarios::{
    configured_bodies, create_scenario, creates, lemma_created_bodies, sketches, Scenario,
};
use crate::world::{name_texts, MetricWorld, Observation, StepRequest};

verus! {

/// The number of frames beyond which a report is refused: they could no
/// longer be counted in 32 bits.
pub const FRAME_LIMIT: usize = 0xffff_ffff;

/// One experiment under way.
#[derive(Clone, Debug)]
pub struct Simulation {
    pub world: MetricWorld,
    pub spec: ExperimentSpec,
    pub scenario: Scenario,
    pub target_steps: u64,
}

/// Where a body is, for drawing it.
#[derive(Clone, Debug)]
pub struct BodyTransform {
    pub id: u64,
    pub name: String,
    /// `[x, y, z]`.
    pub position: [Single; 3],
    /// A quaternion as `[x, y, z, w]`.
    pub rotation: [Single; 4],
}

/// What one built-in scenario is and which parameters it reads.
#[derive(Clone, Debug)]
pub struct ScenarioInfo {
    pub name: String,
    pub description: String,
    pub params: Vec<&'static str>,
}

impl Simulation {
    /// Whether the simulation is that of its description before any step:
    /// the bodies of its scenario entered, the clock at zero, the target
    /// that of its duration.
    pub open spec fn fresh<U: Fn(Operation, u64, u64) -> u64>(&self, unit: &U) -> bool {
        &&& creates(self.spec.spec.scenario, Ok(self.scenario), unit)
        &&& staged(self.spec, self.scenario.bodies(unit), self.world)
        &&& self.world.frames@.len() == 0
        &&& self.target_steps == steps_of(
            self.spec.spec.duration,
            self.spec.spec.physics.timestep,
            unit,
        )
    }

    /// Whether the bodies of the scenario were handed to `insert`, in their
    /// order and under the identities from 0 on.
    pub open spec fn handed_over<I: Fn(&BodyBuilder, u64) -> (), U: Fn(Operation, u64, u64) -> u64>(
        &self,
        insert: &I,
        unit: &U,
    ) -> bool {
        exists|builders: Seq<BodyBuilder>|
            #[trigger] sketches(builders) == self.scenario.bodies(unit) && entered(
                insert,
                builders,
                0,
            )
    }

    /// Sets up the simulation that `spec` describes and hands its bodies to
    /// `insert`. A description that breaks a rule is refused with all its
    /// violations in one line, a scenario that does not exist with its name.
    pub fn new<I: Fn(&BodyBuilder, u64) -> (), U: Fn(Operation, u64, u64) -> u64>(
        spec: ExperimentSpec,
        insert: &I,
        unit: &U,
    ) -> (r: Result<Simulation, SimuForgeError>)
        requires
            unit_ready(unit),
            forall|body: &BodyBuilder, id: u64| #[trigger] insert.requires((body, id)),
        ensures
            !spec.valid() ==> (r matches Err(SimuForgeError::InvalidSpec(detail)) && detail@
                == joined(spec.violations(), ", "@)),
            spec.valid() && configured_bodies(spec.spec.scenario, unit).is_none() ==> (r matches Err(
                SimuForgeError::ScenarioNotFound(name),
            ) && name@ == scenario_name(spec.spec.scenario)),
            spec.valid() && configured_bodies(spec.spec.scenario, unit).is_some() ==> (r matches Ok(
                simulation,
            ) && simulation.spec == spec && simulation.fresh(unit) && simulation.handed_over(
                insert,
                unit,
            )),
    {
        if let Err(errors) = spec.validate() {
            return Err(SimuForgeError::InvalidSpec(join(&errors, ", ")));
        }
        let scenario = match create_scenario(&spec.spec.scenario, unit) {
            Ok(scenario) => scenario,
            Err(e) => {
                return Err(e);
            },
        };
        proof {
            lemma_created_bodies(spec.spec.scenario, scenario, unit);
        }
        let mut world = MetricWorld::from_spec(&spec);
        let bodies = scenario.setup(unit);
        stage(&mut world, &bodies, insert);
        proof {
            assert(name_texts(world.body_names@) =~= sketch_names(sketches(bodies@)));
            assert(sketches(bodies@) == scenario.bodies(unit) && entered(insert, bodies@, 0));
        }
        let target_steps = target_steps(&spec.spec.duration, spec.spec.physics.timestep, unit);
        Ok(Simulation { world, spec, scenario, target_steps })
    }

    /// Takes one step and returns the frame of the scene after it.
    pub fn step<O: Fn() -> Observation, A: Fn(StepRequest) -> (), U: Fn(Operation, u64, u64) -> u64>(
        &mut self,
        observe: &O,
        advance: &A,
        unit: &U,
    ) -> (frame: MetricFrame)
        requires
            unit_ready(unit),
            observe.requires(()),
            advance.requires((old(self).world.request(),)),
            old(self).world.current_step < u64::MAX,
        ensures
            advance.ensures((old(self).world.request(),), ()),
            old(self).world.later(&final(self).world, 1, unit),
            final(self).world.frames@.len() == old(self).world.frames@.len() + 1,
            final(self).world.frames@.drop_last() == old(self).world.frames@,
            exists|observation: Observation|
                observe.ensures((), observation) && old(self).world.shows(
                    final(self).world.frames@.last(),
                    observation,
                    unit,
                ),
            exists|observation: Observation|
                observe.ensures((), observation) && final(self).world.shows(
                    frame,
                    observation,
                    unit,
                ),
            final(self).spec == old(self).spec,
            final(self).scenario == old(self).scenario,
            final(self).target_steps == old(self).target_steps,
    {
        self.world.step(observe, advance, unit);
        let observation = observe();
        self.world.current_frame(&observation, unit)
    }

    /// The frame of the scene as it is, which is not recorded.
    pub fn get_frame<O: Fn() -> Observation, U: Fn(Operation, u64, u64) -> u64>(
        &self,
        observe: &O,
        unit: &U,
    ) -> (frame: MetricFrame)
        requires
            unit_ready(unit),
            observe.requires(()),
        ensures
            exists|observation: Observation|
                observe.ensures((), observation) && self.world.shows(frame, observation, unit),
    {
        let observation = observe();
        self.world.current_frame(&observation, unit)
    }

    /// Where the bodies of the scene are: one entry for each body state of
    /// the present frame, in order.
    pub fn get_body_transforms<O: Fn() -> Observation, U: Fn(Operation, u64, u64) -> u64>(
        &self,
        observe: &O,
        unit: &U,
    ) -> (transforms: Vec<BodyTransform>)
        requires
            unit_ready(unit),
            observe.requires(()),
        ensures
            exists|observation: Observation, frame: MetricFrame|
                observe.ensures((), observation) && self.world.shows(frame, observation, unit)
                    && transforms@.len() == frame.bodies@.len() && forall|i: int|
                    0 <= i < transforms@.len() ==> drawn(
                        #[trigger] transforms@[i],
                        frame.bodies@[i]@,
                    ),
    {
        let frame = self.get_frame(observe, unit);
        let mut transforms: Vec<BodyTransform> = Vec::new();
        let mut i: usize = 0;
        while i < frame.bodies.len()
            invariant
                i <= frame.bodies@.len(),
                transforms@.len() == i,
                forall|j: int| 0 <= j < i ==> drawn(#[trigger] transforms@[j], frame.bodies@[j]@),
            decreases frame.bodies.len() - i,
        {
            let body = &frame.bodies[i];
            transforms.push(
                BodyTransform {
                    id: body.id,
                    name: body.name.clone(),
                    position: [
                        body.transform.position.x,
                        body.transform.position.y,
                        body.transform.position.z,
                    ],
                    rotation: [
                        body.transform.rotation.x,
                        body.transform.rotation.y,
                        body.transform.rotation.z,
                        body.transform.rotation.w,
                    ],
                },
            );
            i = i + 1;
        }
        transforms
    }

    /// The steps that are left to the target.
    pub open spec fn remaining(&self) -> nat {
        if self.target_steps > self.world.current_step {
            (self.target_steps - self.world.current_step) as nat
        } else {
            0
        }
    }

    /// Runs the steps that are left to the target and closes the report
    /// over all frames recorded. More frames than 32 bits count are refused
    /// after the run.
    pub fn run_to_completion<
        O: Fn() -> Observation,
        A: Fn(StepRequest) -> (),
        U: Fn(Operation, u64, u64) -> u64,
    >(&mut self, observe: &O, advance: &A, unit: &U) -> (r: Result<SimulationReport, SimuForgeError>)
        requires
            unit_ready(unit),
            observe.requires(()),
            advance.requires((old(self).world.request(),)),
        ensures
            old(self).remaining() > 0 ==> advance.ensures((old(self).world.request(),), ()),
            old(self).world.later(&final(self).world, old(self).remaining(), unit),
            final(self).world.frames@.len() == old(self).world.frames@.len() + old(self).remaining()
                + 1,
            final(self).world.frames@.take(old(self).world.frames@.len() as int) == old(
                self,
            ).world.frames@,
            forall|i: int|
                0 <= i <= old(self).remaining() ==> old(self).world.ran(
                    #[trigger] final(self).world.frames@[old(self).world.frames@.len() + i],
                    i as nat,
                    observe,
                    unit,
                ),
            final(self).spec == old(self).spec,
            final(self).scenario == old(self).scenario,
            final(self).target_steps == old(self).target_steps,
            final(self).world.frames@.len() > FRAME_LIMIT ==> (r matches Err(
                SimuForgeError::Physics(detail),
            ) && detail@ == "too many frames"@),
            final(self).world.frames@.len() <= FRAME_LIMIT ==> (r matches Ok(report) && closes(
                report,
                final(self).spec,
                final(self).world.frames@,
                unit,
            )),
    {
        let done = self.world.step_count();
        let remaining = if self.target_steps > done {
            self.target_steps - done
        } else {
            0
        };
        self.world.run(remaining, observe, advance, unit);
        if self.world.frames.len() > FRAME_LIMIT {
            return Err(SimuForgeError::Physics(String::from_str("too many frames")));
        }
        let mut report = SimulationReport::new(self.spec.metadata.name.clone());
        proof {
            lemma_totals_bounded(self.world.frames@);
            assert(report.criteria_results@ =~= Seq::<(Seq<char>, CriterionResult)>::empty());
        }
        report.finalize(self.world.frames.as_slice(), &self.spec.spec.criteria, unit);
        Ok(report)
    }

    /// The number of steps taken.
    pub fn current_step(&self) -> (n: u64)
        ensures
            n == self.world.current_step,
    {
        self.world.step_count()
    }

    /// The simulated time.
    pub fn current_time(&self) -> (t: Single)
        ensures
            t == self.world.current_time,
    {
        self.world.time()
    }

    /// The number of steps that the experiment runs for.
    pub fn target_steps(&self) -> (n: u64)
        ensures
            n == self.target_steps,
    {
        self.target_steps
    }

    /// Whether the target is reached.
    pub fn is_complete(&self) -> (r: bool)
        ensures
            r == (self.world.current_step >= self.target_steps),
    {
        self.world.step_count() >= self.target_steps
    }

    /// The number of bodies in the scene.
    pub fn body_count(&self) -> (n: usize)
        ensures
            n == self.world.body_names@.len(),
    {
        self.world.body_count()
    }

    /// Starts over: a new world with the bodies of the scenario, which are
    /// handed to `insert` again.
    pub fn reset<I: Fn(&BodyBuilder, u64) -> (), U: Fn(Operation, u64, u64) -> u64>(
        &mut self,
        insert: &I,
        unit: &U,
    )
        requires
            unit_ready(unit),
            forall|body: &BodyBuilder, id: u64| #[trigger] insert.requires((body, id)),
        ensures
            old(self).handed_over(insert, unit),
            staged(old(self).spec, old(self).scenario.bodies(unit), final(self).world),
            final(self).world.frames@.len() == 0,
            final(self).spec == old(self).spec,
            final(self).scenario == old(self).scenario,
            final(self).target_steps == old(self).target_steps,
    {
        let mut world = MetricWorld::from_spec(&self.spec);
        let bodies = self.scenario.setup(unit);
        stage(&mut world, &bodies, insert);
        proof {
            assert(name_texts(world.body_names@) =~= sketch_names(sketches(bodies@)));
            assert(sketches(bodies@) == self.scenario.bodies(unit) && entered(insert, bodies@, 0));
        }
        self.world = world;
    }
}

/// Whether `transform` shows where the body of `state` is.
pub open spec fn drawn(transform: BodyTransform, state: crate::metrics::BodyStateSketch) -> bool {
    &&& transform.id == state.id
    &&& transform.name@ == state.name
    &&& transform.position[0] == state.transform.position.x
    &&& transform.position[1] == state.transform.position.y
    &&& transform.position[2] == state.transform.position.z
    &&& transform.rotation[0] == state.transform.rotation.x
    &&& transform.rotation[1] == state.transform.rotation.y
    &&& transform.rotation[2] == state.transform.rotation.z
    &&& transform.rotation[3] == state.transform.rotation.w
}

/// Whether `report` is the report of `spec` closed over `frames`.
pub open spec fn closes<U: Fn(Operation, u64, u64) -> u64>(
    report: SimulationReport,
    spec: ExperimentSpec,
    frames: Seq<MetricFrame>,
    unit: &U,
) -> bool {
    &&& frames.len() > 0
    &&& report.experiment_name@ == spec.metadata.name@
    &&& report.total_steps == frames.last().step
    &&& report.total_time == frames.last().time
    &&& report.metrics == AggregateMetrics::of(frames, unit)
    &&& report.status == verdict(spec.spec.criteria@, report.metrics, unit)
    &&& report.criteria_results@ == results_after(
        spec.spec.criteria@,
        report.metrics,
        unit,
        Seq::<(Seq<char>, CriterionResult)>::empty(),
    )
    &&& report.baseline_comparison.is_none()
    &&& report.error.is_none()
}

/// What is said of a description that was read: `valid`, or its
/// violations in one line.
pub open spec fn validation_text(spec: ExperimentSpec) -> Seq<char> {
    if spec.valid() {
        "valid"@
    } else {
        "Validation errors: "@ + joined(spec.violations(), ", "@)
    }
}

/// Checks a description without running it.
pub fn validate_spec(spec: &ExperimentSpec) -> (text: String)
    ensures
        text@ == validation_text(*spec),
{
    match spec.validate() {
        Ok(()) => String::from_str("valid"),
        Err(errors) => String::from_str("Validation errors: ").concat(join(&errors, ", ").as_str()),
    }
}

/// The catalogue as texts: each scenario with its description and the
/// parameters it is usually given.
pub open spec fn catalogue() -> Seq<(Seq<char>, Seq<char>, Seq<Seq<char>>)> {
    seq![
        (
            "box_stack"@,
            "Stack of boxes on ground plane"@,
            seq!["count"@, "box_size"@, "spacing"@, "friction"@],
        ),
        (
            "rolling_sphere"@,
            "Sphere rolling on flat surface"@,
            seq!["radius"@, "initial_velocity"@, "friction"@],
        ),
        (
            "bouncing_ball"@,
            "Ball dropped from height"@,
            seq!["radius"@, "drop_height"@, "restitution"@],
        ),
        (
            "friction_ramp"@,
            "Object sliding down inclined ramp"@,
            seq!["ramp_angle"@, "ramp_length"@, "friction"@],
        ),
    ]
}

/// The texts of a list of string slices.
pub open spec fn slice_texts(list: Seq<&'static str>) -> Seq<Seq<char>> {
    Seq::new(list.len(), |i: int| list[i]@)
}

/// What an entry of the catalogue says.
pub open spec fn info_texts(info: ScenarioInfo) -> (Seq<char>, Seq<char>, Seq<Seq<char>>) {
    (info.name@, info.description@, slice_texts(info.params@))
}

fn info(name: &str, description: &str, params: Vec<&'static str>) -> (r: ScenarioInfo)
    ensures
        r.name@ == name@,
        r.description@ == description@,
        r.params == params,
{
    ScenarioInfo {
        name: String::from_str(name),
        description: String::from_str(description),
        params,
    }
}

/// The built-in scenarios.
pub fn get_available_scenarios() -> (list: Vec<ScenarioInfo>)
    ensures
        list@.len() == 4,
        forall|i: int| 0 <= i < 4 ==> info_texts(#[trigger] list@[i]) == catalogue()[i],
{
    let mut list: Vec<ScenarioInfo> = Vec::new();
    let stack: Vec<&'static str> = vec!["count", "box_size", "spacing", "friction"];
    assert(slice_texts(stack@) =~= seq!["count"@, "box_size"@, "spacing"@, "friction"@]);
    list.push(info("box_stack", "Stack of boxes on ground plane", stack));
    let rolling: Vec<&'static str> = vec!["radius", "initial_velocity", "friction"];
    assert(slice_texts(rolling@) =~= seq!["radius"@, "initial_velocity"@, "friction"@]);
    list.push(info("rolling_sphere", "Sphere rolling on flat surface", rolling));
    let bouncing: Vec<&'static str> = vec!["radius", "drop_height", "restitution"];
    assert(slice_texts(bouncing@) =~= seq!["radius"@, "drop_height"@, "restitution"@]);
    list.push(info("bouncing_ball", "Ball dropped from height", bouncing));
    let ramp: Vec<&'static str> = vec!["ramp_angle", "ramp_length", "friction"];
    assert(slice_texts(ramp@) =~= seq!["ramp_angle"@, "ramp_length"@, "friction"@]);
    list.push(info("friction_ramp", "Object sliding down inclined ramp", ramp));
    list
}

} // verus!
