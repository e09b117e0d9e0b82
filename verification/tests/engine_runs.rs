use rapier3d::prelude::{
    CCDSolver, Collider, ColliderBuilder, ColliderSet, DefaultBroadPhase, ImpulseJointSet,
    IntegrationParameters, IslandManager, MultibodyJointSet, NarrowPhase, PhysicsPipeline,
    QueryPipeline, RigidBody, RigidBodyBuilder, RigidBodyHandle, RigidBodySet, RigidBodyType,
    SharedShape, Vector,
};
use nalgebra::UnitQuaternion;
use simuforge::arith::Operation;
use simuforge::body_builder::{BodyBuilder, BodyKind, Rotation};
use simuforge::experiment::{
    CriteriaConfig, DurationConfig, ExperimentConfig, ExperimentMetadata, ExperimentSpec,
    MetricsConfig, ParamValue, PhysicsConfig, ScenarioConfig, ShapeConfig,
};
use simuforge::error::SimuForgeError;
use simuforge::ieee::{Double, Single};
use simuforge::math::{Quat, Transform, Vec3};
use simuforge::metrics::AggregateMetrics;
use simuforge::names::NameMap;
use simuforge::report::ReportStatus;
use simuforge::runner::{
    run_experiment, run_reported, run_single_experiment, stage, target_steps,
};
use simuforge::session::{get_available_scenarios, validate_spec, Simulation};
use simuforge::scenarios::{
    BouncingBallScenario, BoxStackScenario, FrictionRampScenario, RollingSphereScenario,
};
use simuforge::world::{BodyReading, ContactReading, MetricWorld, Observation, StepRequest};
use std::cell::RefCell;
use std::collections::HashMap;
use std::num::NonZeroUsize;

fn unit(op: Operation, a: u64, b: u64) -> u64 {
    let x = f32::from_bits(a as u32);
    let y = f32::from_bits(b as u32);
    match op {
        Operation::Add => (x + y).to_bits() as u64,
        Operation::Subtract => (x - y).to_bits() as u64,
        Operation::Multiply => (x * y).to_bits() as u64,
        Operation::Divide => (x / y).to_bits() as u64,
        Operation::SquareRoot => x.sqrt().to_bits() as u64,
        Operation::Sine => x.sin().to_bits() as u64,
        Operation::Cosine => x.cos().to_bits() as u64,
        Operation::Widen => (x as f64).to_bits(),
        Operation::Narrow => (f64::from_bits(a) as f32).to_bits() as u64,
        Operation::DoubleSubtract => (f64::from_bits(a) - f64::from_bits(b)).to_bits(),
        Operation::CountToSingle => (a as f32).to_bits() as u64,
        Operation::CountToDouble => (a as f64).to_bits(),
        Operation::SingleToCount => x as u64,
    }
}

fn s(v: f32) -> Single {
    Single::from_bits(v.to_bits())
}

fn f(v: Single) -> f32 {
    f32::from_bits(v.to_bits())
}

fn d(v: f64) -> Double {
    Double::from_bits(v.to_bits())
}

fn g(v: Double) -> f64 {
    f64::from_bits(v.to_bits())
}

struct Engine {
    bodies: RigidBodySet,
    colliders: ColliderSet,
    pipeline: PhysicsPipeline,
    islands: IslandManager,
    broad_phase: DefaultBroadPhase,
    narrow_phase: NarrowPhase,
    impulse_joints: ImpulseJointSet,
    multibody_joints: MultibodyJointSet,
    ccd_solver: CCDSolver,
    query_pipeline: QueryPipeline,
    ids: HashMap<RigidBodyHandle, u64>,
}

fn vector(v: Vec3) -> Vector<f32> {
    Vector::new(f(v.x), f(v.y), f(v.z))
}

fn vec3(v: &Vector<f32>) -> Vec3 {
    Vec3::new(s(v.x), s(v.y), s(v.z))
}

fn build(builder: &BodyBuilder) -> (RigidBody, Collider, String) {
    let rotation = match builder.rotation {
        Rotation::Identity => UnitQuaternion::identity(),
        Rotation::AxisAngle { axis, angle } => {
            UnitQuaternion::from_axis_angle(&nalgebra::Unit::new_normalize(vector(axis)), f(angle))
        }
        Rotation::Quaternion { x, y, z, w } => {
            UnitQuaternion::from_quaternion(nalgebra::Quaternion::new(f(w), f(x), f(y), f(z)))
        }
    };
    let kind = match builder.body_type {
        BodyKind::Dynamic => RigidBodyType::Dynamic,
        BodyKind::Fixed => RigidBodyType::Fixed,
        BodyKind::KinematicPositionBased => RigidBodyType::KinematicPositionBased,
        BodyKind::KinematicVelocityBased => RigidBodyType::KinematicVelocityBased,
    };
    let body = RigidBodyBuilder::new(kind)
        .translation(vector(builder.position))
        .rotation(rotation.scaled_axis())
        .linvel(vector(builder.velocity))
        .angvel(vector(builder.angular_velocity))
        .build();
    let shape = match builder.shape {
        Some(ShapeConfig::Box { half_extents }) => {
            SharedShape::cuboid(f(half_extents.x), f(half_extents.y), f(half_extents.z))
        }
        Some(ShapeConfig::Sphere { radius }) => SharedShape::ball(f(radius)),
        Some(ShapeConfig::Capsule { half_height, radius }) => {
            SharedShape::capsule_y(f(half_height), f(radius))
        }
        Some(ShapeConfig::Cylinder { half_height, radius }) => {
            SharedShape::cylinder(f(half_height), f(radius))
        }
        None => SharedShape::cuboid(0.5, 0.5, 0.5),
    };
    let collider = ColliderBuilder::new(shape)
        .friction(f(builder.friction))
        .restitution(f(builder.restitution))
        .density(f(builder.density))
        .build();
    (body, collider, builder.name.clone())
}

impl Engine {
    fn new() -> RefCell<Engine> {
        RefCell::new(Engine {
            bodies: RigidBodySet::new(),
            colliders: ColliderSet::new(),
            pipeline: PhysicsPipeline::new(),
            islands: IslandManager::new(),
            broad_phase: DefaultBroadPhase::new(),
            narrow_phase: NarrowPhase::new(),
            impulse_joints: ImpulseJointSet::new(),
            multibody_joints: MultibodyJointSet::new(),
            ccd_solver: CCDSolver::new(),
            query_pipeline: QueryPipeline::new(),
            ids: HashMap::new(),
        })
    }

    fn insert(&mut self, builder: &BodyBuilder, id: u64) {
        let (body, collider, _name) = build(builder);
        let handle = self.bodies.insert(body);
        self.ids.insert(handle, id);
        self.colliders.insert_with_parent(collider, handle, &mut self.bodies);
    }

    fn observe(&self) -> Observation {
        let bodies = self
            .bodies
            .iter()
            .map(|(handle, body)| {
                let pose = body.position();
                BodyReading {
                    id: self.ids.get(&handle).copied(),
                    dynamic: body.is_dynamic(),
                    mass: s(body.mass()),
                    pose: Transform::new(
                        vec3(&pose.translation.vector),
                        Quat::new(
                            s(pose.rotation.i),
                            s(pose.rotation.j),
                            s(pose.rotation.k),
                            s(pose.rotation.w),
                        ),
                    ),
                    linear_velocity: vec3(body.linvel()),
                    angular_velocity: vec3(body.angvel()),
                    sleeping: body.is_sleeping(),
                }
            })
            .collect();
        let contacts = self
            .narrow_phase
            .contact_pairs()
            .map(|pair| ContactReading {
                active: pair.has_any_active_contact,
                distances: pair
                    .manifolds
                    .iter()
                    .flat_map(|manifold| manifold.points.iter().map(|point| s(point.dist)))
                    .collect(),
            })
            .collect();
        Observation { bodies, contacts, constraint_violations: 0 }
    }

    fn advance(&mut self, request: StepRequest) {
        let mut parameters = IntegrationParameters::default();
        parameters.dt = f(request.timestep);
        parameters.num_solver_iterations = NonZeroUsize::new(request.solver_iterations as usize)
            .unwrap_or(NonZeroUsize::new(8).unwrap());
        self.pipeline.step(
            &vector(request.gravity),
            &parameters,
            &mut self.islands,
            &mut self.broad_phase,
            &mut self.narrow_phase,
            &mut self.bodies,
            &mut self.colliders,
            &mut self.impulse_joints,
            &mut self.multibody_joints,
            &mut self.ccd_solver,
            Some(&mut self.query_pipeline),
            &(),
            &(),
        );
    }
}

fn param(value: &serde_yaml::Value) -> ParamValue {
    ParamValue {
        number: value.as_f64().map(d),
        count: value.as_u64(),
        items: value.as_sequence().map(|items| items.iter().map(|v| v.as_f64().map(d)).collect()),
    }
}

fn from_yaml(text: &str) -> ExperimentSpec {
    let doc: serde_yaml::Value = serde_yaml::from_str(text).unwrap();
    let body = &doc["spec"];
    let physics = &body["physics"];
    let defaults = PhysicsConfig::default();
    let duration = match body["duration"]["type"].as_str() {
        Some("fixed") => DurationConfig::Fixed { steps: body["duration"]["steps"].as_u64().unwrap() },
        Some("time") => DurationConfig::Time {
            seconds: s(body["duration"]["seconds"].as_f64().unwrap() as f32),
        },
        _ => DurationConfig::default(),
    };
    let mut params = NameMap::new();
    if let Some(map) = body["scenario"]["params"].as_mapping() {
        for (key, value) in map {
            params.insert(key.as_str().unwrap().to_string(), param(value));
        }
    }
    ExperimentSpec {
        api_version: doc["apiVersion"].as_str().unwrap().to_string(),
        kind: doc["kind"].as_str().unwrap().to_string(),
        metadata: ExperimentMetadata {
            name: doc["metadata"]["name"].as_str().unwrap().to_string(),
            description: None,
            tags: Vec::new(),
        },
        spec: ExperimentConfig {
            physics: PhysicsConfig {
                timestep: physics["timestep"]
                    .as_f64()
                    .map(|t| s(t as f32))
                    .unwrap_or(defaults.timestep),
                ..defaults
            },
            duration,
            scenario: ScenarioConfig::Builtin {
                name: body["scenario"]["name"].as_str().unwrap().to_string(),
                params,
            },
            metrics: MetricsConfig::default(),
            criteria: NameMap::new(),
        },
    }
}

fn staged(bodies: Vec<BodyBuilder>) -> (MetricWorld, RefCell<Engine>) {
    let config = PhysicsConfig::default();
    let mut world = MetricWorld::new(&config);
    let engine = Engine::new();
    stage(&mut world, &bodies, &|body: &BodyBuilder, id: u64| engine.borrow_mut().insert(body, id));
    (world, engine)
}

#[test]
fn test_world_creation() {
    let config = PhysicsConfig::default();
    let world = MetricWorld::new(&config);
    assert_eq!(world.body_count(), 0);
}

#[test]
fn test_add_body() {
    let config = PhysicsConfig::default();
    let mut world = MetricWorld::new(&config);
    let engine = Engine::new();

    let body = BodyBuilder::new("test_body").position_xyz(s(0.0), s(5.0), s(0.0)).dynamic();
    let id = world.add_body("test_body".to_string());
    engine.borrow_mut().insert(&body, id);

    assert_eq!(world.body_count(), 1);
    assert_eq!(engine.borrow().bodies.len(), 1);
}

#[test]
fn test_step_simulation() {
    let config = PhysicsConfig::default();
    let mut world = MetricWorld::new(&config);
    let engine = Engine::new();

    let body = BodyBuilder::new("falling_box")
        .position_xyz(s(0.0), s(5.0), s(0.0))
        .box_shape(s(0.5), s(0.5), s(0.5))
        .dynamic();
    let id = world.add_body("falling_box".to_string());
    engine.borrow_mut().insert(&body, id);

    world.step(
        &|| engine.borrow().observe(),
        &|request: StepRequest| engine.borrow_mut().advance(request),
        &unit,
    );
    assert_eq!(world.step_count(), 1);
    assert_eq!(world.frames().len(), 1);
}

#[test]
fn test_body_builder() {
    let (body, _collider, name) = build(
        &BodyBuilder::new("test")
            .position_xyz(s(0.0), s(5.0), s(0.0))
            .box_shape(s(0.5), s(0.5), s(0.5))
            .dynamic(),
    );

    assert_eq!(name, "test");
    assert!(body.is_dynamic());
}

#[test]
fn test_box_stack_setup() {
    let scenario = BoxStackScenario::new(5);
    let (world, engine) = staged(scenario.setup(&unit));

    // Ground + 5 boxes
    assert_eq!(world.body_count(), 6);
    assert_eq!(engine.borrow().bodies.len(), 6);
}

#[test]
fn test_bouncing_ball_setup() {
    let scenario = BouncingBallScenario::default();
    let (world, engine) = staged(scenario.setup(&unit));

    assert_eq!(world.body_count(), 2);
    assert_eq!(engine.borrow().bodies.len(), 2);
}

#[test]
fn test_friction_ramp_setup() {
    let scenario = FrictionRampScenario::default();
    let (world, engine) = staged(scenario.setup(&unit));

    assert_eq!(world.body_count(), 3);
    assert_eq!(engine.borrow().bodies.len(), 3);
}

#[test]
fn test_rolling_sphere_setup() {
    let scenario = RollingSphereScenario::default();
    let (world, engine) = staged(scenario.setup());

    assert_eq!(world.body_count(), 2);
    assert_eq!(engine.borrow().bodies.len(), 2);
}

#[test]
fn test_run_minimal_experiment() {
    let yaml = r#"
apiVersion: simuforge/v1
kind: Experiment
metadata:
  name: test
spec:
  physics:
    timestep: 0.016666667
  duration:
    type: fixed
    steps: 10
  scenario:
    type: builtin
    name: box_stack
    params:
      count: 2
"#;
    let spec = from_yaml(yaml);
    let engine = Engine::new();
    let (report, frames) = run_experiment(
        &spec,
        &|body: &BodyBuilder, id: u64| engine.borrow_mut().insert(body, id),
        &|| engine.borrow().observe(),
        &|request: StepRequest| engine.borrow_mut().advance(request),
        &unit,
    )
    .unwrap();

    assert!(frames.len() > 0);
    assert_eq!(report.experiment_name, "test");
    assert_eq!(frames.len(), 11);
    assert_eq!(report.total_steps, 10);
    assert_eq!(report.status, ReportStatus::Passed);
    assert_eq!(frames[0].bodies.len(), 3);
    assert_eq!(frames[0].bodies[0].name, "ground");
    assert_eq!(frames[0].bodies[2].name, "box_1");
    assert_eq!(engine.borrow().bodies.len(), 3);
}

#[test]
fn a_run_of_n_steps_leaves_n_plus_one_frames_numbered_from_zero() {
    for n in [0u64, 1, 7, 40] {
        let (mut world, engine) = staged(BouncingBallScenario::default().setup(&unit));
        world.run(
            n,
            &|| engine.borrow().observe(),
            &|request: StepRequest| engine.borrow_mut().advance(request),
            &unit,
        );
        assert_eq!(world.frames().len() as u64, n + 1);
        assert_eq!(world.step_count(), n);
        let mut clock = 0.0f32;
        for (i, frame) in world.frames().iter().enumerate() {
            assert_eq!(frame.step, i as u64);
            assert_eq!(f(frame.time), clock);
            clock += 1.0 / 60.0;
        }
        assert_eq!(f(world.time()), (0..n).fold(0.0f32, |t, _| t + 1.0 / 60.0));
    }
}

#[test]
fn a_body_in_free_fall_keeps_its_energy() {
    let ball = BodyBuilder::new("ball")
        .position_xyz(s(0.0), s(10.0), s(0.0))
        .sphere(s(0.5))
        .dynamic()
        .friction(s(0.0))
        .restitution(s(0.0));
    let (mut world, engine) = staged(vec![ball]);
    world.run(
        30,
        &|| engine.borrow().observe(),
        &|request: StepRequest| engine.borrow_mut().advance(request),
        &unit,
    );
    let frames = world.frames();
    assert!(f(frames[0].energy.potential) > 0.0);
    assert_eq!(f(frames[0].energy.kinetic), 0.0);
    assert!(f(frames[30].energy.kinetic) > 0.0);
    assert!(f(frames[30].bodies[0].transform.position.y) < 10.0);
    let agg = AggregateMetrics::compute(frames, &unit);
    assert!(g(agg.energy_drift_percent).abs() < 1.0, "{}", g(agg.energy_drift_percent));
    assert_eq!(f(agg.max_penetration_ever), 0.0);
}

#[test]
fn a_frame_shows_the_energy_and_momentum_of_the_dynamic_bodies() {
    let ball = BodyBuilder::new("ball")
        .position_xyz(s(0.0), s(4.0), s(0.0))
        .velocity_xyz(s(3.0), s(0.0), s(-4.0))
        .angular_velocity(Vec3::new(s(0.0), s(2.0), s(0.0)))
        .sphere(s(0.5))
        .dynamic();
    let slab = BodyBuilder::new("slab")
        .position_xyz(s(0.0), s(-20.0), s(0.0))
        .velocity_xyz(s(9.0), s(9.0), s(9.0))
        .box_shape(s(1.0), s(1.0), s(1.0))
        .fixed();
    let (world, engine) = staged(vec![ball, slab]);
    let observation = engine.borrow().observe();
    let frame = world.current_frame(&observation, &unit);
    let mass = engine.borrow().bodies.iter().next().unwrap().1.mass();
    assert!(mass > 0.0);

    let kinetic = 0.0f32 + 0.5 * mass * 25.0 + 0.5 * (mass * 0.4) * 4.0;
    let potential = 0.0f32 + mass * 9.81 * 4.0;
    assert_eq!(f(frame.energy.kinetic), kinetic);
    assert_eq!(f(frame.energy.potential), potential);
    assert_eq!(f(frame.energy.total), kinetic + potential);
    assert_eq!(f(frame.momentum.linear.x), 0.0 + mass * 3.0);
    assert_eq!(f(frame.momentum.linear.z), 0.0 + mass * -4.0);
    assert_eq!(f(frame.momentum.linear_magnitude), {
        let (x, y, z) = (mass * 3.0, mass * 0.0, mass * -4.0);
        (x * x + y * y + z * z).sqrt()
    });
    assert_eq!(f(frame.momentum.angular.y), 0.0 + mass * 0.4 * 2.0);
    assert_eq!(frame.step, 0);
    assert_eq!(frame.bodies.len(), 2);
    assert_eq!(frame.bodies[1].name, "slab");
    assert_eq!(frame.bodies[1].id, 1);
    assert_eq!(world.frames().len(), 0);
}

#[test]
fn resting_boxes_are_in_contact_and_settle() {
    let (mut world, engine) = staged(BoxStackScenario::new(2).setup(&unit));
    world.run(
        240,
        &|| engine.borrow().observe(),
        &|request: StepRequest| engine.borrow_mut().advance(request),
        &unit,
    );
    let frames = world.frames();
    let last = &frames[240];
    assert!(last.contacts.contact_count >= 2);
    assert!(f(last.contacts.total_penetration) >= f(last.contacts.max_penetration));
    assert_eq!(last.contacts.constraint_violations, 0);
    let agg = AggregateMetrics::compute(frames, &unit);
    assert!(f(agg.average_contact_count) > 0.0);
    assert!(agg.stabilization_step.is_some());
}

#[test]
fn frames_carry_no_bodies_where_they_are_not_collected() {
    let (mut world, engine) = staged(BouncingBallScenario::default().setup(&unit));
    world.set_collect_body_states(false);
    world.run(
        2,
        &|| engine.borrow().observe(),
        &|request: StepRequest| engine.borrow_mut().advance(request),
        &unit,
    );
    assert!(world.frames().iter().all(|frame| frame.bodies.is_empty()));
    assert!(f(world.frames()[0].energy.potential) > 0.0);
    world.clear_frames();
    assert!(world.frames().is_empty());
    assert_eq!(world.step_count(), 2);
    assert_eq!(world.get_body_by_name("ball"), Some(1));
    assert_eq!(world.get_body_by_name("ground"), Some(0));
    assert_eq!(world.get_body_by_name("moon"), None);
}

#[test]
fn an_unknown_scenario_is_an_error_and_is_not_run() {
    let mut spec = from_yaml(
        r#"
apiVersion: simuforge/v1
kind: Experiment
metadata:
  name: lost
spec:
  physics: {}
  duration:
    type: fixed
    steps: 5
  scenario:
    type: builtin
    name: pendulum
"#,
    );
    let engine = Engine::new();
    let result = run_experiment(
        &spec,
        &|body: &BodyBuilder, id: u64| engine.borrow_mut().insert(body, id),
        &|| engine.borrow().observe(),
        &|request: StepRequest| engine.borrow_mut().advance(request),
        &unit,
    );
    match result {
        Err(SimuForgeError::ScenarioNotFound(name)) => assert_eq!(name, "pendulum"),
        _ => panic!("expected an unknown scenario"),
    }
    assert_eq!(engine.borrow().bodies.len(), 0);

    spec.kind = "Trial".to_string();
    spec.spec.physics.solver_iterations = 0;
    let refused = run_single_experiment(
        &spec,
        &|body: &BodyBuilder, id: u64| engine.borrow_mut().insert(body, id),
        &|| engine.borrow().observe(),
        &|request: StepRequest| engine.borrow_mut().advance(request),
        &unit,
    );
    match refused {
        Err(SimuForgeError::Validation(detail)) => {
            assert_eq!(detail, "Unsupported kind: Trial, Solver iterations must be at least 1")
        }
        _ => panic!("expected a validation error"),
    }
}

#[test]
fn a_duration_in_seconds_is_cut_to_whole_steps() {
    let dt = s(1.0 / 60.0);
    assert_eq!(target_steps(&DurationConfig::Fixed { steps: 100 }, dt, &unit), 100);
    assert_eq!(
        target_steps(&DurationConfig::Time { seconds: s(1.0) }, dt, &unit),
        (1.0f32 / (1.0f32 / 60.0)) as u64
    );
    assert_eq!(target_steps(&DurationConfig::Time { seconds: s(0.99) }, s(0.1), &unit), 9);
    assert_eq!(target_steps(&DurationConfig::Time { seconds: s(-1.0) }, dt, &unit), 0);
    assert_eq!(
        target_steps(&DurationConfig::UntilStable { max_steps: 77, threshold: s(0.01) }, dt, &unit),
        77
    );
}

#[test]
fn a_timed_experiment_with_criteria_is_run_and_judged() {
    let mut spec = from_yaml(
        r#"
apiVersion: simuforge/v1
kind: Experiment
metadata:
  name: judged
spec:
  physics:
    timestep: 0.01
  duration:
    type: time
    seconds: 0.25
  scenario:
    type: builtin
    name: bouncing
    params:
      drop_height: 3
"#,
    );
    spec.spec.criteria.insert(
        "energy_drift_percent".to_string(),
        CriteriaConfig { min: Some(d(-5.0)), max: Some(d(5.0)), equals: None, tolerance: None },
    );
    spec.spec.criteria.insert(
        "max_penetration_ever".to_string(),
        CriteriaConfig { min: None, max: None, equals: Some(d(1.0)), tolerance: None },
    );
    let engine = Engine::new();
    let (report, frames) = run_single_experiment(
        &spec,
        &|body: &BodyBuilder, id: u64| engine.borrow_mut().insert(body, id),
        &|| engine.borrow().observe(),
        &|request: StepRequest| engine.borrow_mut().advance(request),
        &unit,
    )
    .unwrap();
    let steps = (0.25f32 / 0.01f32) as u64;
    assert_eq!(frames.len() as u64, steps + 1);
    assert_eq!(report.total_steps, steps);
    assert_eq!(f(report.total_time), f(frames[frames.len() - 1].time));
    assert_eq!(report.status, ReportStatus::Failed);
    assert!(report.criteria_results.get("energy_drift_percent").unwrap().passed);
    assert!(!report.criteria_results.get("max_penetration_ever").unwrap().passed);
    assert_eq!(f(frames[0].bodies[1].transform.position.y), 3.0 + 0.5);
}

fn box_stack_spec(steps: u64) -> ExperimentSpec {
    let mut spec = from_yaml(
        r#"
apiVersion: simuforge/v1
kind: Experiment
metadata:
  name: session
spec:
  physics:
    timestep: 0.016666667
  duration:
    type: fixed
    steps: 1
  scenario:
    type: builtin
    name: box_stack
    params:
      count: 3
"#,
    );
    spec.spec.duration = DurationConfig::Fixed { steps };
    spec
}

#[test]
fn a_simulation_is_stepped_to_its_target() {
    let engine = Engine::new();
    let mut simulation = Simulation::new(
        box_stack_spec(5),
        &|body: &BodyBuilder, id: u64| engine.borrow_mut().insert(body, id),
        &unit,
    )
    .unwrap();
    assert_eq!(simulation.body_count(), 4);
    assert_eq!(engine.borrow().bodies.len(), 4);
    assert_eq!(simulation.target_steps(), 5);
    assert_eq!(simulation.current_step(), 0);
    assert_eq!(f(simulation.current_time()), 0.0);
    assert!(!simulation.is_complete());

    let observe = || engine.borrow().observe();
    let advance = |request: StepRequest| engine.borrow_mut().advance(request);
    let first = simulation.get_frame(&observe, &unit);
    assert_eq!(first.step, 0);
    let after = simulation.step(&observe, &advance, &unit);
    assert_eq!(after.step, 1);
    assert_eq!(f(after.time), 0.016666667);
    assert_eq!(simulation.current_step(), 1);
    assert_eq!(simulation.world.frames().len(), 1);
    assert_eq!(simulation.world.frames()[0].step, 0);
    assert!(f(after.energy.kinetic) > f(first.energy.kinetic));

    let transforms = simulation.get_body_transforms(&observe, &unit);
    assert_eq!(transforms.len(), 4);
    assert_eq!(transforms[0].name, "ground");
    assert_eq!(transforms[0].position.map(f), [0.0, -0.5, 0.0]);
    assert_eq!(transforms[0].rotation.map(f), [0.0, 0.0, 0.0, 1.0]);
    assert_eq!(transforms[3].id, 3);
    assert_eq!(transforms[3].name, "box_2");

    let report = simulation.run_to_completion(&observe, &advance, &unit).unwrap();
    assert!(simulation.is_complete());
    assert_eq!(simulation.current_step(), 5);
    assert_eq!(simulation.world.frames().len(), 6);
    assert_eq!(report.experiment_name, "session");
    assert_eq!(report.total_steps, 5);
    assert_eq!(report.metrics.frame_count, 6);
    assert_eq!(report.status, ReportStatus::Passed);

    let again = simulation.run_to_completion(&observe, &advance, &unit).unwrap();
    assert_eq!(simulation.current_step(), 5);
    assert_eq!(again.metrics.frame_count, 7);
}

#[test]
fn a_simulation_starts_over_on_a_fresh_scene() {
    let engine = Engine::new();
    let mut simulation = Simulation::new(
        box_stack_spec(2),
        &|body: &BodyBuilder, id: u64| engine.borrow_mut().insert(body, id),
        &unit,
    )
    .unwrap();
    simulation
        .run_to_completion(
            &|| engine.borrow().observe(),
            &|request: StepRequest| engine.borrow_mut().advance(request),
            &unit,
        )
        .unwrap();
    let fresh = Engine::new();
    simulation.reset(&|body: &BodyBuilder, id: u64| fresh.borrow_mut().insert(body, id), &unit);
    assert_eq!(simulation.current_step(), 0);
    assert_eq!(f(simulation.current_time()), 0.0);
    assert_eq!(simulation.body_count(), 4);
    assert_eq!(fresh.borrow().bodies.len(), 4);
    assert!(simulation.world.frames().is_empty());
    assert_eq!(simulation.target_steps(), 2);
}

#[test]
fn a_simulation_is_refused_for_a_bad_description() {
    let engine = Engine::new();
    let mut bad = box_stack_spec(2);
    bad.metadata.name = String::new();
    bad.api_version = "v9".to_string();
    assert_eq!(
        validate_spec(&bad),
        "Validation errors: Unsupported API version: v9, Experiment name cannot be empty"
    );
    match Simulation::new(bad, &|body: &BodyBuilder, id: u64| engine.borrow_mut().insert(body, id), &unit) {
        Err(SimuForgeError::InvalidSpec(detail)) => {
            assert_eq!(detail, "Unsupported API version: v9, Experiment name cannot be empty")
        }
        _ => panic!("expected an invalid description"),
    }
    assert_eq!(engine.borrow().bodies.len(), 0);
    assert_eq!(validate_spec(&box_stack_spec(2)), "valid");
}

#[test]
fn the_catalogue_lists_the_four_scenarios() {
    let list = get_available_scenarios();
    let names: Vec<&str> = list.iter().map(|info| info.name.as_str()).collect();
    assert_eq!(names, vec!["box_stack", "rolling_sphere", "bouncing_ball", "friction_ramp"]);
    assert_eq!(list[0].description, "Stack of boxes on ground plane");
    assert_eq!(list[0].params, vec!["count", "box_size", "spacing", "friction"]);
    assert_eq!(list[1].description, "Sphere rolling on flat surface");
    assert_eq!(list[1].params, vec!["radius", "initial_velocity", "friction"]);
    assert_eq!(list[2].description, "Ball dropped from height");
    assert_eq!(list[2].params, vec!["radius", "drop_height", "restitution"]);
    assert_eq!(list[3].description, "Object sliding down inclined ramp");
    assert_eq!(list[3].params, vec!["ramp_angle", "ramp_length", "friction"]);
}

#[test]
fn an_experiment_that_ends_in_an_error_is_reported_as_one() {
    let engine = Engine::new();
    let mut spec = box_stack_spec(3);
    spec.spec.scenario = ScenarioConfig::Builtin { name: "seesaw".to_string(), params: NameMap::new() };
    let (report, frames) = run_reported(
        &spec,
        &|body: &BodyBuilder, id: u64| engine.borrow_mut().insert(body, id),
        &|| engine.borrow().observe(),
        &|request: StepRequest| engine.borrow_mut().advance(request),
        &unit,
    );
    assert!(frames.is_empty());
    assert_eq!(report.status, ReportStatus::Error);
    assert_eq!(report.experiment_name, "session");
    assert_eq!(report.error.as_deref(), Some("Scenario not found: seesaw"));
    assert_eq!(report.metrics, AggregateMetrics::default());

    spec.spec.physics.timestep = s(0.0);
    let (report, _) = run_reported(
        &spec,
        &|body: &BodyBuilder, id: u64| engine.borrow_mut().insert(body, id),
        &|| engine.borrow().observe(),
        &|request: StepRequest| engine.borrow_mut().advance(request),
        &unit,
    );
    assert_eq!(report.status, ReportStatus::Error);
    assert_eq!(report.error.as_deref(), Some("Validation error: Timestep must be positive"));

    let mut endless = box_stack_spec(1 << 32);
    endless.metadata.name = "endless".to_string();
    let (report, frames) = run_reported(
        &endless,
        &|body: &BodyBuilder, id: u64| engine.borrow_mut().insert(body, id),
        &|| engine.borrow().observe(),
        &|request: StepRequest| engine.borrow_mut().advance(request),
        &unit,
    );
    assert!(frames.is_empty());
    assert_eq!(report.error.as_deref(), Some("Physics error: too many steps"));
    assert_eq!(engine.borrow().bodies.len(), 0);

    let (report, frames) = run_reported(
        &box_stack_spec(3),
        &|body: &BodyBuilder, id: u64| engine.borrow_mut().insert(body, id),
        &|| engine.borrow().observe(),
        &|request: StepRequest| engine.borrow_mut().advance(request),
        &unit,
    );
    assert_eq!(frames.len(), 4);
    assert_eq!(report.status, ReportStatus::Passed);
    assert_eq!(report.error, None);
}

#[test]
fn the_engine_is_handed_every_body_and_asked_for_every_step() {
    let inserted = RefCell::new(Vec::new());
    let requests = RefCell::new(Vec::new());
    let observed = RefCell::new(0u32);
    let mut spec = box_stack_spec(4);
    spec.spec.physics.solver_iterations = 3;
    spec.spec.physics.gravity = Vec3::new(s(0.0), s(-1.5), s(0.25));
    let (report, frames) = run_experiment(
        &spec,
        &|body: &BodyBuilder, id: u64| inserted.borrow_mut().push((body.name.clone(), id)),
        &|| {
            *observed.borrow_mut() += 1;
            Observation { bodies: Vec::new(), contacts: Vec::new(), constraint_violations: 0 }
        },
        &|request: StepRequest| requests.borrow_mut().push((*observed.borrow(), request)),
        &unit,
    )
    .unwrap();
    assert_eq!(
        inserted.into_inner(),
        vec![
            ("ground".to_string(), 0),
            ("box_0".to_string(), 1),
            ("box_1".to_string(), 2),
            ("box_2".to_string(), 3),
        ]
    );
    let expected = StepRequest {
        gravity: Vec3::new(s(0.0), s(-1.5), s(0.25)),
        timestep: s(0.016666667),
        solver_iterations: 3,
    };
    // One step after each of the first four frames, none after the last.
    assert_eq!(
        requests.into_inner(),
        vec![(1, expected), (2, expected), (3, expected), (4, expected)]
    );
    assert_eq!(*observed.borrow(), 5);
    assert_eq!(frames.len(), 5);
    assert_eq!(report.total_steps, 4);
}

#[test]
fn a_world_without_solver_iterations_asks_for_eight() {
    let mut config = PhysicsConfig::default();
    config.solver_iterations = 0;
    let mut world = MetricWorld::new(&config);
    let requests = RefCell::new(Vec::new());
    world.step(
        &|| Observation { bodies: Vec::new(), contacts: Vec::new(), constraint_violations: 9 },
        &|request: StepRequest| requests.borrow_mut().push(request),
        &unit,
    );
    assert_eq!(requests.borrow().len(), 1);
    assert_eq!(requests.borrow()[0], world.step_request());
    assert_eq!(requests.borrow()[0].solver_iterations, 8);
    assert_eq!(world.frames()[0].contacts.constraint_violations, 9);
}

#[test]
fn a_simulation_reports_the_scenario_it_cannot_find() {
    let mut spec = box_stack_spec(2);
    spec.spec.scenario = ScenarioConfig::Builtin { name: "swing".to_string(), params: NameMap::new() };
    let inserted = RefCell::new(0u32);
    match Simulation::new(spec, &|_body: &BodyBuilder, _id: u64| *inserted.borrow_mut() += 1, &unit) {
        Err(SimuForgeError::ScenarioNotFound(name)) => assert_eq!(name, "swing"),
        _ => panic!("expected an unknown scenario"),
    }
    assert_eq!(*inserted.borrow(), 0);
}
