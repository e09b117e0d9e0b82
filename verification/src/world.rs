//! The stepping loop: one frame before each step of the engine and one
//! after the last.
//!
//! The engine itself stays outside. The world is handed what the engine
//! shows of its scene, an [`Observation`], turns it into a frame, and says
//! what the engine is to do next, a [`StepRequest`].

use vstd::prelude::*;
use crate::arith::{plus, product, sum, times, unit_ready, Operation};
use crate::experiment::{ExperimentSpec, PhysicsConfig};
use crate::ieee::Single;
use crate::math::{Transform, Vec3};
use crate::metrics::{
    BodyState, BodyStateSketch, ContactMetrics, EnergyMetrics, MetricFrame, MomentumMetrics,
};

verus! {

/// Bit pattern of binary32 `0.5`.
pub const ENERGY_HALF: u32 = 0x3f00_0000;

/// Bit pattern of binary32 `0.4`: the moment of inertia of a body is taken
/// to be its mass times this, whatever its shape.
pub const INERTIA_FACTOR: u32 = 0x3ecc_cccd;

/// Number of solver iterations where an experiment asks for none.
pub const FALLBACK_ITERATIONS: u32 = 8;

/// What the engine shows of one body.
#[derive(Clone, Copy, Debug)]
pub struct BodyReading {
    /// The identity that [`MetricWorld::add_body`] gave the body, if it
    /// entered the scene that way.
    pub id: Option<u64>,
    /// Whether forces apply to the body.
    pub dynamic: bool,
    pub mass: Single,
    pub pose: Transform,
    pub linear_velocity: Vec3,
    pub angular_velocity: Vec3,
    pub sleeping: bool,
}

/// What the engine shows of one pair of colliders in contact.
#[derive(Clone, Debug)]
pub struct ContactReading {
    /// Whether any contact of the pair is active.
    pub active: bool,
    /// The signed distance of every contact point of the pair; a negative
    /// distance is an overlap.
    pub distances: Vec<Single>,
}

/// What the engine shows of its scene at one moment.
#[derive(Clone, Debug)]
pub struct Observation {
    pub bodies: Vec<BodyReading>,
    pub contacts: Vec<ContactReading>,
    /// The engine's own count of violated constraints, passed on as it is.
    pub constraint_violations: u32,
}

/// What the engine is to do for one step.
#[derive(Clone, Copy, Debug, PartialEq, Eq, Structural)]
pub struct StepRequest {
    pub gravity: Vec3,
    pub timestep: Single,
    pub solver_iterations: u32,
}

/// The bookkeeping of one run: the clock, the bodies by name and the
/// frames recorded so far.
#[derive(Clone, Debug)]
pub struct MetricWorld {
    pub gravity: Vec3,
    pub timestep: Single,
    pub solver_iterations: u32,
    pub current_step: u64,
    pub current_time: Single,
    /// The names of the bodies; the identity of a body is its index.
    pub body_names: Vec<String>,
    pub frames: Vec<MetricFrame>,
    pub collect_body_states: bool,
}

/// Kinetic and potential energy after one more body: a dynamic body adds
/// `0.5 * mass * |v|^2` and `0.5 * (mass * 0.4) * |w|^2` to the first and
/// `mass * g * height` to the second, any other body nothing.
pub open spec fn energy_with<U: Fn(Operation, u64, u64) -> u64>(
    so_far: (Single, Single),
    body: BodyReading,
    g: Single,
    unit: &U,
) -> (Single, Single) {
    if body.dynamic {
        let half = Single::of(ENERGY_HALF);
        let linear = product(
            unit,
            product(unit, half, body.mass),
            body.linear_velocity.squared_length(unit),
        );
        let inertia = product(unit, body.mass, Single::of(INERTIA_FACTOR));
        let angular = product(
            unit,
            product(unit, half, inertia),
            body.angular_velocity.squared_length(unit),
        );
        let lifted = product(unit, product(unit, body.mass, g), body.pose.position.y);
        (sum(unit, sum(unit, so_far.0, linear), angular), sum(unit, so_far.1, lifted))
    } else {
        so_far
    }
}

/// Kinetic and potential energy of the bodies, added up in their order.
pub open spec fn energy_parts<U: Fn(Operation, u64, u64) -> u64>(
    bodies: Seq<BodyReading>,
    g: Single,
    unit: &U,
) -> (Single, Single)
    decreases bodies.len(),
{
    if bodies.len() == 0 {
        (Single::of(0), Single::of(0))
    } else {
        energy_with(energy_parts(bodies.drop_last(), g, unit), bodies.last(), g, unit)
    }
}

/// The energy of the bodies under a gravity of vertical component
/// `gravity_y`, heights measured from zero.
pub open spec fn energy_of<U: Fn(Operation, u64, u64) -> u64>(
    bodies: Seq<BodyReading>,
    gravity_y: Single,
    unit: &U,
) -> EnergyMetrics {
    let parts = energy_parts(bodies, gravity_y.absolute(), unit);
    EnergyMetrics { kinetic: parts.0, potential: parts.1, total: sum(unit, parts.0, parts.1) }
}

/// `v` with `factor * w` added to it, component by component.
pub open spec fn accumulated<U: Fn(Operation, u64, u64) -> u64>(
    v: Vec3,
    factor: Single,
    w: Vec3,
    unit: &U,
) -> Vec3 {
    Vec3 {
        x: sum(unit, v.x, product(unit, factor, w.x)),
        y: sum(unit, v.y, product(unit, factor, w.y)),
        z: sum(unit, v.z, product(unit, factor, w.z)),
    }
}

/// Linear and angular momentum after one more body: a dynamic body adds
/// `mass * v` to the first and `(mass * 0.4) * w` to the second.
pub open spec fn momentum_with<U: Fn(Operation, u64, u64) -> u64>(
    so_far: (Vec3, Vec3),
    body: BodyReading,
    unit: &U,
) -> (Vec3, Vec3) {
    if body.dynamic {
        let inertia = product(unit, body.mass, Single::of(INERTIA_FACTOR));
        (
            accumulated(so_far.0, body.mass, body.linear_velocity, unit),
            accumulated(so_far.1, inertia, body.angular_velocity, unit),
        )
    } else {
        so_far
    }
}

/// Linear and angular momentum of the bodies, added up in their order.
pub open spec fn momentum_parts<U: Fn(Operation, u64, u64) -> u64>(
    bodies: Seq<BodyReading>,
    unit: &U,
) -> (Vec3, Vec3)
    decreases bodies.len(),
{
    if bodies.len() == 0 {
        (Vec3::zero_vector(), Vec3::zero_vector())
    } else {
        momentum_with(momentum_parts(bodies.drop_last(), unit), bodies.last(), unit)
    }
}

/// The momentum of the bodies.
pub open spec fn momentum_of<U: Fn(Operation, u64, u64) -> u64>(
    bodies: Seq<BodyReading>,
    unit: &U,
) -> MomentumMetrics {
    let parts = momentum_parts(bodies, unit);
    MomentumMetrics {
        linear: parts.0,
        angular: parts.1,
        linear_magnitude: parts.0.length(unit),
        angular_magnitude: parts.1.length(unit),
    }
}

/// Largest and summed penetration after the contact points of one pair: a
/// point at a negative distance penetrates by that distance, any other
/// point not at all.
pub open spec fn depth_with<U: Fn(Operation, u64, u64) -> u64>(
    so_far: (Single, Single),
    distances: Seq<Single>,
    unit: &U,
) -> (Single, Single)
    decreases distances.len(),
{
    if distances.len() == 0 {
        so_far
    } else {
        let earlier = depth_with(so_far, distances.drop_last(), unit);
        let depth = distances.last().opposite();
        if Single::of(0).below(depth) {
            (earlier.0.larger(depth), sum(unit, earlier.1, depth))
        } else {
            earlier
        }
    }
}

/// The number of active pairs, the largest and the summed penetration of
/// their contact points. A pair without active contact counts for nothing.
pub open spec fn contact_parts<U: Fn(Operation, u64, u64) -> u64>(
    contacts: Seq<ContactReading>,
    unit: &U,
) -> (nat, Single, Single)
    decreases contacts.len(),
{
    if contacts.len() == 0 {
        (0, Single::of(0), Single::of(0))
    } else {
        let earlier = contact_parts(contacts.drop_last(), unit);
        if contacts.last().active {
            let depths = depth_with((earlier.1, earlier.2), contacts.last().distances@, unit);
            (earlier.0 + 1, depths.0, depths.1)
        } else {
            earlier
        }
    }
}

/// The contact metrics of an observation. The count of pairs stops at the
/// largest number that its 32 bits hold.
pub open spec fn contacts_of<U: Fn(Operation, u64, u64) -> u64>(
    observation: Observation,
    unit: &U,
) -> ContactMetrics {
    let parts = contact_parts(observation.contacts@, unit);
    ContactMetrics {
        contact_count: if parts.0 <= u32::MAX {
            parts.0 as u32
        } else {
            u32::MAX
        },
        max_penetration: parts.1,
        total_penetration: parts.2,
        constraint_violations: observation.constraint_violations,
    }
}

/// The state of the body behind `reading`, known as `id` and `name`.
pub open spec fn state_of(reading: BodyReading, id: u64, name: Seq<char>) -> BodyStateSketch {
    BodyStateSketch {
        id,
        name,
        transform: reading.pose,
        velocity: reading.linear_velocity,
        angular_velocity: reading.angular_velocity,
        sleeping: reading.sleeping,
    }
}

/// The states of the bodies that the world knows by name, in the order of
/// the readings. A body without identity, or with one that the world never
/// gave, is left out.
pub open spec fn states_of(bodies: Seq<BodyReading>, names: Seq<Seq<char>>) -> Seq<BodyStateSketch>
    decreases bodies.len(),
{
    if bodies.len() == 0 {
        Seq::empty()
    } else {
        let earlier = states_of(bodies.drop_last(), names);
        match bodies.last().id {
            Some(id) => if id < names.len() {
                earlier.push(state_of(bodies.last(), id, names[id as int]))
            } else {
                earlier
            },
            None => earlier,
        }
    }
}

/// The views of a list of body states.
pub open spec fn state_sketches(states: Seq<BodyState>) -> Seq<BodyStateSketch> {
    Seq::new(states.len(), |i: int| states[i]@)
}

/// The views of a list of names.
pub open spec fn name_texts(names: Seq<String>) -> Seq<Seq<char>> {
    Seq::new(names.len(), |i: int| names[i]@)
}

/// `start` with `timestep` added to it `steps` times, one addition after
/// the other.
pub open spec fn time_after<U: Fn(Operation, u64, u64) -> u64>(
    start: Single,
    timestep: Single,
    steps: nat,
    unit: &U,
) -> Single
    decreases steps,
{
    if steps == 0 {
        start
    } else {
        sum(unit, time_after(start, timestep, (steps - 1) as nat, unit), timestep)
    }
}

impl MetricWorld {
    /// Whether `frame` is the frame of `observation` taken by this world at
    /// its present step and time.
    pub open spec fn shows<U: Fn(Operation, u64, u64) -> u64>(
        &self,
        frame: MetricFrame,
        observation: Observation,
        unit: &U,
    ) -> bool {
        &&& frame.step == self.current_step
        &&& frame.time == self.current_time
        &&& frame.energy == energy_of(observation.bodies@, self.gravity.y, unit)
        &&& frame.momentum == momentum_of(observation.bodies@, unit)
        &&& frame.contacts == contacts_of(observation, unit)
        &&& state_sketches(frame.bodies@) == if self.collect_body_states {
            states_of(observation.bodies@, name_texts(self.body_names@))
        } else {
            Seq::<BodyStateSketch>::empty()
        }
    }

    /// What this world asks of the engine for every step.
    pub open spec fn request(&self) -> StepRequest {
        StepRequest {
            gravity: self.gravity,
            timestep: self.timestep,
            solver_iterations: self.solver_iterations,
        }
    }

    /// Whether `other` is driven as this world is: by the same gravity,
    /// timestep and solver iterations, collecting body states or not.
    pub open spec fn same_drive(&self, other: &MetricWorld) -> bool {
        &&& other.gravity == self.gravity
        &&& other.timestep == self.timestep
        &&& other.solver_iterations == self.solver_iterations
        &&& other.collect_body_states == self.collect_body_states
    }

    /// Whether `other` is driven as this world is and knows the same bodies.
    pub open spec fn same_scene(&self, other: &MetricWorld) -> bool {
        &&& self.same_drive(other)
        &&& other.body_names == self.body_names
    }

    /// Whether `other` is this world `steps` steps later, its frames aside.
    pub open spec fn later<U: Fn(Operation, u64, u64) -> u64>(
        &self,
        other: &MetricWorld,
        steps: nat,
        unit: &U,
    ) -> bool {
        &&& self.same_scene(other)
        &&& other.current_step == self.current_step + steps
        &&& other.current_time == time_after(self.current_time, self.timestep, steps, unit)
    }

    /// A world at step 0 and time `0.0` without bodies or frames, that
    /// records the states of the bodies. Where `config` asks for no solver
    /// iteration the world asks for 8.
    pub fn new(config: &PhysicsConfig) -> (w: MetricWorld)
        ensures
            w.gravity == config.gravity,
            w.timestep == config.timestep,
            w.solver_iterations == (if config.solver_iterations == 0 {
                FALLBACK_ITERATIONS
            } else {
                config.solver_iterations
            }),
            w.current_step == 0,
            w.current_time == Single::of(0),
            w.body_names@.len() == 0,
            w.frames@.len() == 0,
            w.collect_body_states,
    {
        MetricWorld {
            gravity: config.gravity,
            timestep: config.timestep,
            solver_iterations: if config.solver_iterations == 0 {
                FALLBACK_ITERATIONS
            } else {
                config.solver_iterations
            },
            current_step: 0,
            current_time: Single { bits: 0 },
            body_names: Vec::new(),
            frames: Vec::new(),
            collect_body_states: true,
        }
    }

    /// The world for the physics of `spec`.
    pub fn from_spec(spec: &ExperimentSpec) -> (w: MetricWorld)
        ensures
            w.gravity == spec.spec.physics.gravity,
            w.timestep == spec.spec.physics.timestep,
            w.solver_iterations == (if spec.spec.physics.solver_iterations == 0 {
                FALLBACK_ITERATIONS
            } else {
                spec.spec.physics.solver_iterations
            }),
            w.current_step == 0,
            w.current_time == Single::of(0),
            w.body_names@.len() == 0,
            w.frames@.len() == 0,
            w.collect_body_states,
    {
        MetricWorld::new(&spec.spec.physics)
    }

    /// Says whether frames are to carry the states of the bodies.
    pub fn set_collect_body_states(&mut self, collect: bool)
        ensures
            *final(self) == (MetricWorld { collect_body_states: collect, ..*old(self) }),
    {
        self.collect_body_states = collect;
    }

    /// Enters a body under `name` and gives it the next identity: the
    /// number of bodies entered before it.
    pub fn add_body(&mut self, name: String) -> (id: u64)
        ensures
            id == old(self).body_names@.len(),
            final(self).body_names@ == old(self).body_names@.push(name),
            old(self).same_drive(final(self)),
            final(self).current_step == old(self).current_step,
            final(self).current_time == old(self).current_time,
            final(self).frames == old(self).frames,
    {
        let id = self.body_names.len() as u64;
        self.body_names.push(name);
        id
    }

    /// What the engine is to do for a step.
    pub fn step_request(&self) -> (r: StepRequest)
        ensures
            r == self.request(),
    {
        StepRequest {
            gravity: self.gravity,
            timestep: self.timestep,
            solver_iterations: self.solver_iterations,
        }
    }

    /// Records the frame of `observation`, counts one step and moves the
    /// clock on by one timestep. Returns what the engine is to do now.
    pub fn record<U: Fn(Operation, u64, u64) -> u64>(
        &mut self,
        observation: &Observation,
        unit: &U,
    ) -> (r: StepRequest)
        requires
            unit_ready(unit),
            old(self).current_step < u64::MAX,
        ensures
            r == old(self).request(),
            old(self).later(final(self), 1, unit),
            final(self).frames@.len() == old(self).frames@.len() + 1,
            final(self).frames@.drop_last() == old(self).frames@,
            old(self).shows(final(self).frames@.last(), *observation, unit),
    {
        let frame = self.collect_metrics(observation, unit);
        self.frames.push(frame);
        self.current_step = self.current_step + 1;
        self.current_time = plus(unit, self.current_time, self.timestep);
        assert(self.frames@.drop_last() =~= old(self).frames@);
        assert(time_after(old(self).current_time, old(self).timestep, 0, unit) == old(
            self,
        ).current_time);
        self.step_request()
    }

    /// Records the frame of `observation` without counting a step: the
    /// frame after the last step of a run.
    pub fn capture<U: Fn(Operation, u64, u64) -> u64>(
        &mut self,
        observation: &Observation,
        unit: &U,
    )
        requires
            unit_ready(unit),
        ensures
            old(self).later(final(self), 0, unit),
            final(self).frames@.len() == old(self).frames@.len() + 1,
            final(self).frames@.drop_last() == old(self).frames@,
            old(self).shows(final(self).frames@.last(), *observation, unit),
    {
        let frame = self.collect_metrics(observation, unit);
        self.frames.push(frame);
        assert(self.frames@.drop_last() =~= old(self).frames@);
    }

    /// One step: the frame of what `observe` shows, then the engine's step
    /// through `advance`, which is asked for the gravity, the timestep and
    /// the solver iterations of this world.
    pub fn step<O: Fn() -> Observation, A: Fn(StepRequest) -> (), U: Fn(Operation, u64, u64) -> u64>(
        &mut self,
        observe: &O,
        advance: &A,
        unit: &U,
    )
        requires
            unit_ready(unit),
            observe.requires(()),
            advance.requires((old(self).request(),)),
            old(self).current_step < u64::MAX,
        ensures
            advance.ensures((old(self).request(),), ()),
            old(self).later(final(self), 1, unit),
            final(self).frames@.len() == old(self).frames@.len() + 1,
            final(self).frames@.drop_last() == old(self).frames@,
            exists|observation: Observation|
                observe.ensures((), observation) && old(self).shows(
                    final(self).frames@.last(),
                    observation,
                    unit,
                ),
    {
        let observation = observe();
        let request = self.record(&observation, unit);
        advance(request);
    }

    /// A run of `steps` steps: a frame before each step, the engine's step
    /// through `advance` after each of these frames, and one frame after
    /// the last step.
    pub fn run<O: Fn() -> Observation, A: Fn(StepRequest) -> (), U: Fn(Operation, u64, u64) -> u64>(
        &mut self,
        steps: u64,
        observe: &O,
        advance: &A,
        unit: &U,
    )
        requires
            unit_ready(unit),
            observe.requires(()),
            advance.requires((old(self).request(),)),
            old(self).current_step + steps <= u64::MAX,
        ensures
            steps > 0 ==> advance.ensures((old(self).request(),), ()),
            old(self).later(final(self), steps as nat, unit),
            final(self).frames@.len() == old(self).frames@.len() + steps + 1,
            final(self).frames@.take(old(self).frames@.len() as int) == old(self).frames@,
            forall|i: int|
                0 <= i <= steps ==> (#[trigger] final(self).frames@[old(self).frames@.len() + i]).step
                    == old(self).current_step + i,
            forall|i: int|
                0 <= i <= steps ==> old(self).ran(
                    #[trigger] final(self).frames@[old(self).frames@.len() + i],
                    i as nat,
                    observe,
                    unit,
                ),
    {
        let ghost start = *self;
        let ghost base = self.frames@.len() as int;
        let mut done: u64 = 0;
        assert(self.frames@.take(base) =~= start.frames@);
        while done < steps
            invariant
                unit_ready(unit),
                observe.requires(()),
                advance.requires((start.request(),)),
                start.current_step + steps <= u64::MAX,
                done <= steps,
                done > 0 ==> advance.ensures((start.request(),), ()),
                base == start.frames@.len(),
                start.later(self, done as nat, unit),
                self.frames@.len() == base + done,
                self.frames@.take(base) == start.frames@,
                forall|i: int|
                    0 <= i < done ==> start.ran(
                        #[trigger] self.frames@[base + i],
                        i as nat,
                        observe,
                        unit,
                    ),
            decreases steps - done,
        {
            let ghost before = *self;
            self.step(observe, advance, unit);
            proof {
                assert(time_after(before.current_time, before.timestep, 0, unit)
                    == before.current_time);
                assert(time_after(before.current_time, before.timestep, 1, unit) == sum(
                    unit,
                    before.current_time,
                    before.timestep,
                ));
                assert(time_after(start.current_time, start.timestep, (done + 1) as nat, unit)
                    == sum(
                    unit,
                    time_after(start.current_time, start.timestep, done as nat, unit),
                    start.timestep,
                ));
                assert(self.frames@.drop_last() == before.frames@);
                assert(self.frames@.take(base) =~= before.frames@.take(base));
                assert forall|i: int| 0 <= i < done + 1 implies start.ran(
                    #[trigger] self.frames@[base + i],
                    i as nat,
                    observe,
                    unit,
                ) by {
                    if i < done {
                        assert(self.frames@[base + i] == before.frames@[base + i]);
                    } else {
                        assert(self.frames@[base + i] == self.frames@.last());
                        let observation = choose|observation: Observation|
                            observe.ensures((), observation) && before.shows(
                                self.frames@.last(),
                                observation,
                                unit,
                            );
                        assert(start.at_step(i as nat, unit).shows(
                            self.frames@.last(),
                            observation,
                            unit,
                        ));
                    }
                }
            }
            done = done + 1;
        }
        let ghost before = *self;
        let observation = observe();
        self.capture(&observation, unit);
        proof {
            assert(self.frames@.drop_last() == before.frames@);
            assert(self.frames@.take(base) =~= before.frames@.take(base));
            assert forall|i: int| 0 <= i <= steps implies start.ran(
                #[trigger] self.frames@[base + i],
                i as nat,
                observe,
                unit,
            ) by {
                if i < steps {
                    assert(self.frames@[base + i] == before.frames@[base + i]);
                } else {
                    assert(self.frames@[base + i] == self.frames@.last());
                    assert(start.at_step(i as nat, unit).shows(
                        self.frames@.last(),
                        observation,
                        unit,
                    ));
                }
            }
        }
    }

    /// The step, the time and what else a frame depends on, `steps` steps
    /// after this world.
    pub open spec fn at_step<U: Fn(Operation, u64, u64) -> u64>(&self, steps: nat, unit: &U)
        -> MetricWorld {
        MetricWorld {
            current_step: (self.current_step + steps) as u64,
            current_time: time_after(self.current_time, self.timestep, steps, unit),
            ..*self
        }
    }

    /// Whether `frame` is the frame that a run from this world takes
    /// `steps` steps in: that of something that `observe` showed.
    pub open spec fn ran<O: Fn() -> Observation, U: Fn(Operation, u64, u64) -> u64>(
        &self,
        frame: MetricFrame,
        steps: nat,
        observe: &O,
        unit: &U,
    ) -> bool {
        exists|observation: Observation|
            observe.ensures((), observation) && self.at_step(steps, unit).shows(
                frame,
                observation,
                unit,
            )
    }

    /// The frames recorded so far.
    pub fn frames(&self) -> (r: &[MetricFrame])
        ensures
            r@ == self.frames@,
    {
        self.frames.as_slice()
    }

    /// The frame of `observation` at the present step and time, which is
    /// not recorded.
    pub fn current_frame<U: Fn(Operation, u64, u64) -> u64>(
        &self,
        observation: &Observation,
        unit: &U,
    ) -> (frame: MetricFrame)
        requires
            unit_ready(unit),
        ensures
            self.shows(frame, *observation, unit),
    {
        self.collect_metrics(observation, unit)
    }

    /// Forgets the frames recorded so far.
    pub fn clear_frames(&mut self)
        ensures
            final(self).frames@.len() == 0,
            old(self).same_scene(final(self)),
            final(self).current_step == old(self).current_step,
            final(self).current_time == old(self).current_time,
    {
        self.frames.clear();
    }

    fn collect_metrics<U: Fn(Operation, u64, u64) -> u64>(
        &self,
        observation: &Observation,
        unit: &U,
    ) -> (frame: MetricFrame)
        requires
            unit_ready(unit),
        ensures
            self.shows(frame, *observation, unit),
    {
        let mut frame = MetricFrame::new(self.current_step, self.current_time);
        frame.energy = compute_energy(&observation.bodies, self.gravity.y, unit);
        frame.momentum = compute_momentum(&observation.bodies, unit);
        frame.contacts = compute_contacts(observation, unit);
        if self.collect_body_states {
            frame.bodies = collect_body_states(&observation.bodies, &self.body_names);
        } else {
            assert(state_sketches(frame.bodies@) =~= Seq::<BodyStateSketch>::empty());
        }
        frame
    }

    /// The identity of the first body entered under `name`, if there is one.
    pub fn get_body_by_name(&self, name: &str) -> (r: Option<u64>)
        ensures
            match r {
                Some(id) => id < self.body_names@.len() && self.body_names@[id as int]@ == name@
                    && forall|j: int| 0 <= j < id ==> (#[trigger] self.body_names@[j])@ != name@,
                None => forall|j: int|
                    0 <= j < self.body_names@.len() ==> (#[trigger] self.body_names@[j])@ != name@,
            },
    {
        let key = name.to_owned();
        let mut i: usize = 0;
        while i < self.body_names.len()
            invariant
                i <= self.body_names@.len(),
                key@ == name@,
                forall|j: int| 0 <= j < i ==> (#[trigger] self.body_names@[j])@ != name@,
            decreases self.body_names.len() - i,
        {
            if self.body_names[i] == key {
                return Some(i as u64);
            }
            i = i + 1;
        }
        None
    }

    /// The number of bodies entered.
    pub fn body_count(&self) -> (n: usize)
        ensures
            n == self.body_names@.len(),
    {
        self.body_names.len()
    }

    /// The simulated time.
    pub fn time(&self) -> (t: Single)
        ensures
            t == self.current_time,
    {
        self.current_time
    }

    /// The number of steps taken.
    pub fn step_count(&self) -> (n: u64)
        ensures
            n == self.current_step,
    {
        self.current_step
    }
}

/// The energy of the bodies under a gravity of vertical component `gravity_y`.
pub fn compute_energy<U: Fn(Operation, u64, u64) -> u64>(
    bodies: &Vec<BodyReading>,
    gravity_y: Single,
    unit: &U,
) -> (r: EnergyMetrics)
    requires
        unit_ready(unit),
    ensures
        r == energy_of(bodies@, gravity_y, unit),
{
    let g = gravity_y.abs();
    let half = Single { bits: ENERGY_HALF };
    let mut kinetic = Single { bits: 0 };
    let mut potential = Single { bits: 0 };
    let mut i: usize = 0;
    while i < bodies.len()
        invariant
            unit_ready(unit),
            i <= bodies@.len(),
            g == gravity_y.absolute(),
            half == Single::of(ENERGY_HALF),
            (kinetic, potential) == energy_parts(bodies@.take(i as int), g, unit),
        decreases bodies.len() - i,
    {
        assert(bodies@.take(i + 1).drop_last() =~= bodies@.take(i as int));
        let body = &bodies[i];
        if body.dynamic {
            let linear = times(
                unit,
                times(unit, half, body.mass),
                body.linear_velocity.magnitude_squared(unit),
            );
            kinetic = plus(unit, kinetic, linear);
            let inertia = times(unit, body.mass, Single { bits: INERTIA_FACTOR });
            let angular = times(
                unit,
                times(unit, half, inertia),
                body.angular_velocity.magnitude_squared(unit),
            );
            kinetic = plus(unit, kinetic, angular);
            let lifted = times(unit, times(unit, body.mass, g), body.pose.position.y);
            potential = plus(unit, potential, lifted);
        }
        i = i + 1;
    }
    assert(bodies@.take(i as int) =~= bodies@);
    EnergyMetrics::new(kinetic, potential, unit)
}

fn accumulate<U: Fn(Operation, u64, u64) -> u64>(v: Vec3, factor: Single, w: Vec3, unit: &U) -> (r:
    Vec3)
    requires
        unit_ready(unit),
    ensures
        r == accumulated(v, factor, w, unit),
{
    Vec3 {
        x: plus(unit, v.x, times(unit, factor, w.x)),
        y: plus(unit, v.y, times(unit, factor, w.y)),
        z: plus(unit, v.z, times(unit, factor, w.z)),
    }
}

/// The momentum of the bodies.
pub fn compute_momentum<U: Fn(Operation, u64, u64) -> u64>(
    bodies: &Vec<BodyReading>,
    unit: &U,
) -> (r: MomentumMetrics)
    requires
        unit_ready(unit),
    ensures
        r == momentum_of(bodies@, unit),
{
    let mut linear = Vec3::zero();
    let mut angular = Vec3::zero();
    let mut i: usize = 0;
    while i < bodies.len()
        invariant
            unit_ready(unit),
            i <= bodies@.len(),
            (linear, angular) == momentum_parts(bodies@.take(i as int), unit),
        decreases bodies.len() - i,
    {
        assert(bodies@.take(i + 1).drop_last() =~= bodies@.take(i as int));
        let body = &bodies[i];
        if body.dynamic {
            linear = accumulate(linear, body.mass, body.linear_velocity, unit);
            let inertia = times(unit, body.mass, Single { bits: INERTIA_FACTOR });
            angular = accumulate(angular, inertia, body.angular_velocity, unit);
        }
        i = i + 1;
    }
    assert(bodies@.take(i as int) =~= bodies@);
    MomentumMetrics::new(linear, angular, unit)
}

/// The contact metrics of an observation.
pub fn compute_contacts<U: Fn(Operation, u64, u64) -> u64>(observation: &Observation, unit: &U) -> (r:
    ContactMetrics)
    requires
        unit_ready(unit),
    ensures
        r == contacts_of(*observation, unit),
{
    let contacts = &observation.contacts;
    let mut count: u32 = 0;
    let mut max_penetration = Single { bits: 0 };
    let mut total_penetration = Single { bits: 0 };
    let mut i: usize = 0;
    while i < contacts.len()
        invariant
            unit_ready(unit),
            i <= contacts@.len(),
            count == (if contact_parts(contacts@.take(i as int), unit).0 <= u32::MAX {
                contact_parts(contacts@.take(i as int), unit).0 as u32
            } else {
                u32::MAX
            }),
            max_penetration == contact_parts(contacts@.take(i as int), unit).1,
            total_penetration == contact_parts(contacts@.take(i as int), unit).2,
        decreases contacts.len() - i,
    {
        assert(contacts@.take(i + 1).drop_last() =~= contacts@.take(i as int));
        let pair = &contacts[i];
        if pair.active {
            if count < u32::MAX {
                count = count + 1;
            }
            let ghost start = (max_penetration, total_penetration);
            let mut k: usize = 0;
            assert(pair.distances@.take(0) =~= Seq::<Single>::empty());
            while k < pair.distances.len()
                invariant
                    unit_ready(unit),
                    k <= pair.distances@.len(),
                    (max_penetration, total_penetration) == depth_with(
                        start,
                        pair.distances@.take(k as int),
                        unit,
                    ),
                decreases pair.distances.len() - k,
            {
                assert(pair.distances@.take(k + 1).drop_last() =~= pair.distances@.take(k as int));
                let depth = pair.distances[k].neg();
                if depth.gt(Single { bits: 0 }) {
                    max_penetration = max_penetration.max(depth);
                    total_penetration = plus(unit, total_penetration, depth);
                }
                k = k + 1;
            }
            assert(pair.distances@.take(k as int) =~= pair.distances@);
        }
        i = i + 1;
    }
    assert(contacts@.take(i as int) =~= contacts@);
    ContactMetrics {
        contact_count: count,
        max_penetration,
        total_penetration,
        constraint_violations: observation.constraint_violations,
    }
}

/// The states of the bodies that are known by name.
pub fn collect_body_states(bodies: &Vec<BodyReading>, names: &Vec<String>) -> (r: Vec<BodyState>)
    ensures
        state_sketches(r@) == states_of(bodies@, name_texts(names@)),
{
    let mut states: Vec<BodyState> = Vec::new();
    let mut i: usize = 0;
    assert(state_sketches(states@) =~= Seq::<BodyStateSketch>::empty());
    while i < bodies.len()
        invariant
            i <= bodies@.len(),
            state_sketches(states@) == states_of(bodies@.take(i as int), name_texts(names@)),
        decreases bodies.len() - i,
    {
        assert(bodies@.take(i + 1).drop_last() =~= bodies@.take(i as int));
        let body = &bodies[i];
        let ghost earlier = state_sketches(states@);
        if let Some(id) = body.id {
            if id < names.len() as u64 {
                let state = BodyState {
                    id,
                    name: names[id as usize].clone(),
                    transform: body.pose,
                    velocity: body.linear_velocity,
                    angular_velocity: body.angular_velocity,
                    sleeping: body.sleeping,
                };
                states.push(state);
                assert(state_sketches(states@) =~= earlier.push(
                    state_of(*body, id, name_texts(names@)[id as int]),
                ));
            }
        }
        i = i + 1;
    }
    assert(bodies@.take(i as int) =~= bodies@);
    states
}

/// A run of `n` steps from a world without frames at step 0 leaves `n + 1`
/// frames, and frame `i` carries the step `i` and the time that `i`
/// additions of the timestep come to.
pub proof fn lemma_run_frames<O: Fn() -> Observation, U: Fn(Operation, u64, u64) -> u64>(
    before: MetricWorld,
    after: MetricWorld,
    n: nat,
    observe: &O,
    unit: &U,
)
    requires
        before.frames@.len() == 0,
        before.current_step == 0,
        n <= u64::MAX,
        after.frames@.len() == before.frames@.len() + n + 1,
        forall|i: int|
            0 <= i <= n ==> before.ran(
                #[trigger] after.frames@[before.frames@.len() + i],
                i as nat,
                observe,
                unit,
            ),
    ensures
        after.frames@.len() == n + 1,
        forall|i: int| 0 <= i <= n ==> (#[trigger] after.frames@[i]).step == i,
        forall|i: int|
            0 <= i <= n ==> (#[trigger] after.frames@[i]).time == time_after(
                before.current_time,
                before.timestep,
                i as nat,
                unit,
            ),
{
    assert forall|i: int| 0 <= i <= n implies (#[trigger] after.frames@[i]).step == i
        && after.frames@[i].time == time_after(
        before.current_time,
        before.timestep,
        i as nat,
        unit,
    ) by {
        assert(before.ran(after.frames@[before.frames@.len() + i], i as nat, observe, unit));
    }
}

} // verus!
