//! One experiment from its description to its report.

use vstd::prelude::*;
use vstd::string::StringExecFns;
use crate::arith::{count_of_single, over, quotient, single_to_count, unit_ready, Operation};
use crate::body_builder::{BodyBuilder, BodySketch};
use crate::error::SimuForgeError;
use crate::experiment::{texts, DurationConfig, ExperimentSpec, ScenarioConfig};
use crate::ieee::Single;
use crate::metrics::{lemma_totals_bounded, AggregateMetrics, MetricFrame};
use crate::report::{results_after, verdict, CriterionResult, ReportStatus, SimulationReport};
use crate::scenarios::{configured_bodies, create_scenario, lemma_created_bodies, sketches};
use crate::world::{name_texts, MetricWorld, Observation, StepRequest, FALLBACK_ITERATIONS};

verus! {

/// What running the experiment of one file came to.
#[derive(Clone, Debug)]
pub struct ExperimentResult {
    pub report: SimulationReport,
    pub frames: Vec<MetricFrame>,
    pub experiment_path: String,
}

/// The number of steps beyond which a run is refused: its frames could no
/// longer be counted in 32 bits.
pub const STEP_LIMIT: u64 = 0x1_0000_0000;

/// The number of steps that `duration` stands for at the given timestep: a
/// fixed number as it is, a time as the whole part of its quotient by the
/// timestep, a run until stable as its cap.
pub open spec fn steps_of<U: Fn(Operation, u64, u64) -> u64>(
    duration: DurationConfig,
    timestep: Single,
    unit: &U,
) -> u64 {
    match duration {
        DurationConfig::Fixed { steps } => steps,
        DurationConfig::Time { seconds } => count_of_single(unit, quotient(unit, seconds, timestep)),
        DurationConfig::UntilStable { max_steps, threshold } => max_steps,
    }
}

/// The number of steps to run for `duration`.
pub fn target_steps<U: Fn(Operation, u64, u64) -> u64>(
    duration: &DurationConfig,
    timestep: Single,
    unit: &U,
) -> (steps: u64)
    requires
        unit_ready(unit),
    ensures
        steps == steps_of(*duration, timestep, unit),
{
    match duration {
        DurationConfig::Fixed { steps } => *steps,
        DurationConfig::Time { seconds } => single_to_count(unit, over(unit, *seconds, timestep)),
        DurationConfig::UntilStable { max_steps, threshold: _ } => *max_steps,
    }
}

/// The names of the bodies, in order.
pub open spec fn sketch_names(bodies: Seq<BodySketch>) -> Seq<Seq<char>> {
    Seq::new(bodies.len(), |i: int| bodies[i].name)
}

/// Whether `world` is the world of `spec` with `bodies` entered and no step
/// taken.
pub open spec fn staged(spec: ExperimentSpec, bodies: Seq<BodySketch>, world: MetricWorld) -> bool {
    &&& world.gravity == spec.spec.physics.gravity
    &&& world.timestep == spec.spec.physics.timestep
    &&& world.solver_iterations == (if spec.spec.physics.solver_iterations == 0 {
        FALLBACK_ITERATIONS
    } else {
        spec.spec.physics.solver_iterations
    })
    &&& world.current_step == 0
    &&& world.current_time == Single::of(0)
    &&& world.collect_body_states
    &&& name_texts(world.body_names@) == sketch_names(bodies)
}

/// Whether each of `bodies` was handed to `insert`, the first under the
/// identity `first` and every other under the next.
pub open spec fn entered<I: Fn(&BodyBuilder, u64) -> ()>(
    insert: &I,
    bodies: Seq<BodyBuilder>,
    first: nat,
) -> bool {
    forall|k: int|
        0 <= k < bodies.len() ==> insert.ensures((&#[trigger] bodies[k], (first + k) as u64), ())
}

/// Enters `bodies` into `world` in their order and hands each, with the
/// identity it got, to `insert`, which puts it into the engine's scene.
pub fn stage<I: Fn(&BodyBuilder, u64) -> ()>(
    world: &mut MetricWorld,
    bodies: &Vec<BodyBuilder>,
    insert: &I,
)
    requires
        forall|body: &BodyBuilder, id: u64| #[trigger] insert.requires((body, id)),
    ensures
        entered(insert, bodies@, old(world).body_names@.len()),
        final(world).body_names@.len() == old(world).body_names@.len() + bodies@.len(),
        name_texts(final(world).body_names@) == name_texts(old(world).body_names@) + sketch_names(
            sketches(bodies@),
        ),
        old(world).same_drive(final(world)),
        final(world).current_step == old(world).current_step,
        final(world).current_time == old(world).current_time,
        final(world).frames == old(world).frames,
{
    let mut i: usize = 0;
    assert(name_texts(world.body_names@) =~= name_texts(old(world).body_names@) + sketch_names(
        sketches(bodies@.take(0)),
    ));
    while i < bodies.len()
        invariant
            forall|body: &BodyBuilder, id: u64| #[trigger] insert.requires((body, id)),
            i <= bodies@.len(),
            world.body_names@.len() == old(world).body_names@.len() + i,
            forall|k: int|
                0 <= k < i ==> insert.ensures(
                    (&#[trigger] bodies@[k], (old(world).body_names@.len() + k) as u64),
                    (),
                ),
            name_texts(world.body_names@) == name_texts(old(world).body_names@) + sketch_names(
                sketches(bodies@.take(i as int)),
            ),
            old(world).same_drive(world),
            world.current_step == old(world).current_step,
            world.current_time == old(world).current_time,
            world.frames == old(world).frames,
        decreases bodies.len() - i,
    {
        let ghost before = name_texts(world.body_names@);
        let id = world.add_body(bodies[i].name.clone());
        insert(&bodies[i], id);
        assert(name_texts(world.body_names@) =~= before.push(bodies@[i as int].name@));
        assert(sketch_names(sketches(bodies@.take(i + 1))) =~= sketch_names(
            sketches(bodies@.take(i as int)),
        ).push(bodies@[i as int].name@));
        i = i + 1;
    }
    assert(bodies@.take(i as int) =~= bodies@);
}

/// What the engine is asked for at every step of the experiment: its
/// gravity, its timestep and its solver iterations, 8 where it names none.
pub open spec fn request_of(spec: ExperimentSpec) -> StepRequest {
    StepRequest {
        gravity: spec.spec.physics.gravity,
        timestep: spec.spec.physics.timestep,
        solver_iterations: if spec.spec.physics.solver_iterations == 0 {
            FALLBACK_ITERATIONS
        } else {
            spec.spec.physics.solver_iterations
        },
    }
}

/// Whether the engine was driven as a run of `spec` over `steps` steps
/// with the bodies `bodies` drives it: each body was handed to `insert`,
/// the first under the identity 0, and, where there is a step to take,
/// `advance` was asked for what the experiment asks for.
pub open spec fn engine_driven<I: Fn(&BodyBuilder, u64) -> (), A: Fn(StepRequest) -> ()>(
    spec: ExperimentSpec,
    bodies: Seq<BodySketch>,
    steps: u64,
    insert: &I,
    advance: &A,
) -> bool {
    &&& exists|builders: Seq<BodyBuilder>|
        #[trigger] sketches(builders) == bodies && entered(insert, builders, 0)
    &&& steps > 0 ==> advance.ensures((request_of(spec),), ())
}

/// Whether `report` and `frames` are what a run of `spec` over `steps`
/// steps with the bodies `bodies` gives: a frame before each step and one
/// after the last, each of something that `observe` showed, and the report
/// of the experiment closed over them.
pub open spec fn run_gives<O: Fn() -> Observation, U: Fn(Operation, u64, u64) -> u64>(
    spec: ExperimentSpec,
    bodies: Seq<BodySketch>,
    steps: u64,
    report: SimulationReport,
    frames: Seq<MetricFrame>,
    observe: &O,
    unit: &U,
) -> bool {
    &&& frames.len() == steps + 1
    &&& forall|i: int| 0 <= i <= steps ==> (#[trigger] frames[i]).step == i
    &&& exists|world: MetricWorld|
        staged(spec, bodies, world) && forall|i: int|
            0 <= i <= steps ==> world.ran(#[trigger] frames[i], i as nat, observe, unit)
    &&& report.experiment_name@ == spec.metadata.name@
    &&& report.total_steps == steps
    &&& report.total_time == frames.last().time
    &&& report.metrics == AggregateMetrics::of(frames, unit)
    &&& report.status == verdict(spec.spec.criteria@, report.metrics, unit)
    &&& report.criteria_results@ == results_after(
        spec.spec.criteria@,
        report.metrics,
        unit,
        Seq::<(Seq<char>, CriterionResult)>::empty(),
    )
    &&& report.baseline_comparison.is_none()
    &&& report.error.is_none()
}

/// The name of the built-in scenario that `config` asks for.
pub open spec fn scenario_name(config: ScenarioConfig) -> Seq<char> {
    match config {
        ScenarioConfig::Builtin { name, params } => name@,
        ScenarioConfig::Custom { bodies } => Seq::empty(),
    }
}

/// Whether `r` is what running `spec` comes to: an error that names the
/// scenario where there is none of that name, an error where the run would
/// take 2^32 steps or more, and otherwise the report with its frames, of
/// an engine that was handed the bodies and asked for its steps.
pub open spec fn experiment_gives<
    I: Fn(&BodyBuilder, u64) -> (),
    O: Fn() -> Observation,
    A: Fn(StepRequest) -> (),
    U: Fn(Operation, u64, u64) -> u64,
>(
    spec: ExperimentSpec,
    r: Result<(SimulationReport, Vec<MetricFrame>), SimuForgeError>,
    insert: &I,
    observe: &O,
    advance: &A,
    unit: &U,
) -> bool {
    let steps = steps_of(spec.spec.duration, spec.spec.physics.timestep, unit);
    match configured_bodies(spec.spec.scenario, unit) {
        None => r matches Err(SimuForgeError::ScenarioNotFound(name)) && name@ == scenario_name(
            spec.spec.scenario,
        ),
        Some(bodies) => if steps >= STEP_LIMIT {
            r matches Err(SimuForgeError::Physics(detail)) && detail@ == "too many steps"@
        } else {
            r matches Ok(pair) && run_gives(spec, bodies, steps, pair.0, pair.1@, observe, unit)
                && engine_driven(spec, bodies, steps, insert, advance)
        },
    }
}

/// Runs the experiment that `spec` describes.
///
/// The engine is reached through three functions: `insert` puts a body
/// into its scene, `observe` shows the scene and `advance` takes one step.
pub fn run_experiment<
    I: Fn(&BodyBuilder, u64) -> (),
    O: Fn() -> Observation,
    A: Fn(StepRequest) -> (),
    U: Fn(Operation, u64, u64) -> u64,
>(spec: &ExperimentSpec, insert: &I, observe: &O, advance: &A, unit: &U) -> (r: Result<
    (SimulationReport, Vec<MetricFrame>),
    SimuForgeError,
>)
    requires
        unit_ready(unit),
        forall|body: &BodyBuilder, id: u64| #[trigger] insert.requires((body, id)),
        observe.requires(()),
        forall|request: StepRequest| #[trigger] advance.requires((request,)),
    ensures
        experiment_gives(*spec, r, insert, observe, advance, unit),
{
    let mut world = MetricWorld::from_spec(spec);
    let scenario = match create_scenario(&spec.spec.scenario, unit) {
        Ok(scenario) => scenario,
        Err(e) => {
            return Err(e);
        },
    };
    proof {
        lemma_created_bodies(spec.spec.scenario, scenario, unit);
    }
    let steps = target_steps(&spec.spec.duration, spec.spec.physics.timestep, unit);
    if steps >= STEP_LIMIT {
        return Err(SimuForgeError::Physics(String::from_str("too many steps")));
    }
    let bodies = scenario.setup(unit);
    stage(&mut world, &bodies, insert);
    let ghost staged_world = world;
    proof {
        assert(name_texts(world.body_names@) =~= sketch_names(sketches(bodies@)));
        assert(staged_world.request() == request_of(*spec));
        assert(sketches(bodies@) == scenario.bodies(unit) && entered(insert, bodies@, 0));
    }

    world.run(steps, observe, advance, unit);

    let frames = world.frames;
    let mut report = SimulationReport::new(spec.metadata.name.clone());
    proof {
        assert(report.criteria_results@ =~= Seq::<(Seq<char>, CriterionResult)>::empty());
        lemma_totals_bounded(frames@);
        assert forall|i: int| 0 <= i <= steps implies (#[trigger] frames@[i]).step == i by {
            assert(staged_world.ran(frames@[0 + i], i as nat, observe, unit));
        }
        assert forall|i: int| 0 <= i <= steps implies staged_world.ran(
            #[trigger] frames@[i],
            i as nat,
            observe,
            unit,
        ) by {
            assert(staged_world.ran(frames@[0 + i], i as nat, observe, unit));
        }
        assert(staged(*spec, scenario.bodies(unit), staged_world));
        assert(engine_driven(*spec, scenario.bodies(unit), steps, insert, advance));
    }
    report.finalize(frames.as_slice(), &spec.spec.criteria, unit);
    Ok((report, frames))
}

/// The texts of `parts` in a row, `separator` between each two.
pub open spec fn joined(parts: Seq<Seq<char>>, separator: Seq<char>) -> Seq<char>
    decreases parts.len(),
{
    if parts.len() == 0 {
        Seq::empty()
    } else if parts.len() == 1 {
        parts[0]
    } else {
        joined(parts.drop_last(), separator) + separator + parts.last()
    }
}

/// The strings of `parts` in a row, `separator` between each two.
pub fn join(parts: &Vec<String>, separator: &str) -> (r: String)
    ensures
        r@ == joined(texts(parts@), separator@),
{
    let mut out = String::new();
    let mut i: usize = 0;
    assert(texts(parts@).take(0) =~= Seq::<Seq<char>>::empty());
    while i < parts.len()
        invariant
            i <= parts@.len(),
            out@ == joined(texts(parts@).take(i as int), separator@),
        decreases parts.len() - i,
    {
        let ghost shorter = texts(parts@).take(i as int);
        let ghost longer = texts(parts@).take(i + 1);
        assert(longer.drop_last() =~= shorter);
        assert(longer.last() == parts@[i as int]@);
        if i > 0 {
            out.append(separator);
        } else {
            assert(out@ =~= Seq::<char>::empty());
            assert(longer[0] == parts@[0]@);
            assert(Seq::<char>::empty() + parts@[0]@ =~= parts@[0]@);
        }
        out.append(parts[i].as_str());
        i = i + 1;
    }
    assert(texts(parts@).take(i as int) =~= texts(parts@));
    out
}

/// Whether `r` is what one experiment of a suite comes to: the violations
/// of its description in one line where there are any, and what running
/// it comes to otherwise.
pub open spec fn single_gives<
    I: Fn(&BodyBuilder, u64) -> (),
    O: Fn() -> Observation,
    A: Fn(StepRequest) -> (),
    U: Fn(Operation, u64, u64) -> u64,
>(
    spec: ExperimentSpec,
    r: Result<(SimulationReport, Vec<MetricFrame>), SimuForgeError>,
    insert: &I,
    observe: &O,
    advance: &A,
    unit: &U,
) -> bool {
    if spec.valid() {
        experiment_gives(spec, r, insert, observe, advance, unit)
    } else {
        r matches Err(SimuForgeError::Validation(detail)) && detail@ == joined(
            spec.violations(),
            ", "@,
        )
    }
}

/// Checks the description and, where it holds, runs the experiment. The
/// engine is not touched for a description that breaks a rule.
pub fn run_single_experiment<
    I: Fn(&BodyBuilder, u64) -> (),
    O: Fn() -> Observation,
    A: Fn(StepRequest) -> (),
    U: Fn(Operation, u64, u64) -> u64,
>(spec: &ExperimentSpec, insert: &I, observe: &O, advance: &A, unit: &U) -> (r: Result<
    (SimulationReport, Vec<MetricFrame>),
    SimuForgeError,
>)
    requires
        unit_ready(unit),
        forall|body: &BodyBuilder, id: u64| #[trigger] insert.requires((body, id)),
        observe.requires(()),
        forall|request: StepRequest| #[trigger] advance.requires((request,)),
    ensures
        single_gives(*spec, r, insert, observe, advance, unit),
{
    match spec.validate() {
        Ok(()) => run_experiment(spec, insert, observe, advance, unit),
        Err(errors) => Err(SimuForgeError::Validation(join(&errors, ", "))),
    }
}

/// The error that the experiment ends in, as its heading and its detail,
/// if it ends in one: the violations of its description in one line, the
/// name of a scenario that does not exist, or a run of 2^32 steps or more.
pub open spec fn refusal<U: Fn(Operation, u64, u64) -> u64>(spec: ExperimentSpec, unit: &U)
    -> Option<(Seq<char>, Seq<char>)> {
    if !spec.valid() {
        Some(("Validation error: "@, joined(spec.violations(), ", "@)))
    } else if configured_bodies(spec.spec.scenario, unit).is_none() {
        Some(("Scenario not found: "@, scenario_name(spec.spec.scenario)))
    } else if steps_of(spec.spec.duration, spec.spec.physics.timestep, unit) >= STEP_LIMIT {
        Some(("Physics error: "@, "too many steps"@))
    } else {
        None
    }
}

/// Whether `report` is the report of an experiment called `name` that
/// ended in the error `message`.
pub open spec fn reports_failure(report: SimulationReport, name: Seq<char>, message: Seq<char>)
    -> bool {
    &&& report.status == ReportStatus::Error
    &&& report.experiment_name@ == name
    &&& report.error matches Some(text) && text@ == message
    &&& report.total_steps == 0
    &&& report.total_time == Single::of(0)
    &&& report.metrics == AggregateMetrics::none()
    &&& report.criteria_results@.len() == 0
    &&& report.baseline_comparison.is_none()
}

/// Whether `report` and `frames` are what the experiment comes to, error
/// or not: where it ends in an error, a report of that error without
/// frames, and the report and the frames of its run otherwise.
pub open spec fn reported<
    I: Fn(&BodyBuilder, u64) -> (),
    O: Fn() -> Observation,
    A: Fn(StepRequest) -> (),
    U: Fn(Operation, u64, u64) -> u64,
>(
    spec: ExperimentSpec,
    report: SimulationReport,
    frames: Seq<MetricFrame>,
    insert: &I,
    observe: &O,
    advance: &A,
    unit: &U,
) -> bool {
    match refusal(spec, unit) {
        Some((heading, detail)) => frames.len() == 0 && reports_failure(
            report,
            spec.metadata.name@,
            heading + detail,
        ),
        None => run_gives(
            spec,
            configured_bodies(spec.spec.scenario, unit).unwrap(),
            steps_of(spec.spec.duration, spec.spec.physics.timestep, unit),
            report,
            frames,
            observe,
            unit,
        ) && engine_driven(
            spec,
            configured_bodies(spec.spec.scenario, unit).unwrap(),
            steps_of(spec.spec.duration, spec.spec.physics.timestep, unit),
            insert,
            advance,
        ),
    }
}

/// Checks and runs the experiment as [`run_single_experiment`] does, and
/// always comes back with a report: that of the run, or, where the
/// experiment ended in an error, a report that carries the error, without
/// frames.
pub fn run_reported<
    I: Fn(&BodyBuilder, u64) -> (),
    O: Fn() -> Observation,
    A: Fn(StepRequest) -> (),
    U: Fn(Operation, u64, u64) -> u64,
>(spec: &ExperimentSpec, insert: &I, observe: &O, advance: &A, unit: &U) -> (r: (
    SimulationReport,
    Vec<MetricFrame>,
))
    requires
        unit_ready(unit),
        forall|body: &BodyBuilder, id: u64| #[trigger] insert.requires((body, id)),
        observe.requires(()),
        forall|request: StepRequest| #[trigger] advance.requires((request,)),
    ensures
        reported(*spec, r.0, r.1@, insert, observe, advance, unit),
{
    match run_single_experiment(spec, insert, observe, advance, unit) {
        Ok(pair) => pair,
        Err(failure) => {
            let message = failure.message();
            let report = SimulationReport::with_error(spec.metadata.name.clone(), message);
            (report, Vec::new())
        },
    }
}

/// An experiment that was run passed exactly where every criterion that
/// names a metric accepted it, and one without criteria passed.
pub proof fn lemma_run_status<O: Fn() -> Observation, U: Fn(Operation, u64, u64) -> u64>(
    spec: ExperimentSpec,
    bodies: Seq<BodySketch>,
    steps: u64,
    report: SimulationReport,
    frames: Seq<MetricFrame>,
    observe: &O,
    unit: &U,
)
    requires
        run_gives(spec, bodies, steps, report, frames, observe, unit),
    ensures
        report.status == ReportStatus::Passed || report.status == ReportStatus::Failed,
        spec.spec.criteria@.len() == 0 ==> report.status == ReportStatus::Passed,
{
}

} // verus!
