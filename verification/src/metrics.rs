//! Per-step metric frames and their reduction to aggregate metrics.

use vstd::prelude::*;
use crate::arith::{
    count_to_single, difference, minus, over, plus, product, quotient, single_of_count, sum,
    times, unit_ready, widen, widened, Operation,
};
use crate::ieee::{Double, Single};
use crate::math::{Transform, Vec3};
use crate::seqs::{any, first, is_first, lemma_first};

verus! {

/// Bit pattern of binary32 `1e-6`: an initial energy of no larger magnitude
/// has no drift.
pub const NEGLIGIBLE_ENERGY: u32 = 0x3586_37bd;

/// Bit pattern of binary32 `0.01`: a body slower than this is at rest.
pub const REST_SPEED: u32 = 0x3c23_d70a;

/// Bit pattern of binary32 `100.0`.
pub const HUNDRED: u32 = 0x42c8_0000;

/// The metrics of one step.
#[derive(Clone, Debug)]
pub struct MetricFrame {
    pub step: u64,
    pub time: Single,
    pub energy: EnergyMetrics,
    pub momentum: MomentumMetrics,
    pub contacts: ContactMetrics,
    pub bodies: Vec<BodyState>,
}

/// Kinetic, potential and total mechanical energy.
#[derive(Clone, Copy, Debug, PartialEq, Eq, Structural)]
pub struct EnergyMetrics {
    pub kinetic: Single,
    pub potential: Single,
    pub total: Single,
}

/// Linear and angular momentum, each with its magnitude.
#[derive(Clone, Copy, Debug, PartialEq, Eq, Structural)]
pub struct MomentumMetrics {
    pub linear: Vec3,
    pub angular: Vec3,
    pub linear_magnitude: Single,
    pub angular_magnitude: Single,
}

/// What the contacts of one step add up to.
#[derive(Clone, Copy, Debug, PartialEq, Eq, Structural)]
pub struct ContactMetrics {
    pub contact_count: u32,
    pub max_penetration: Single,
    pub total_penetration: Single,
    pub constraint_violations: u32,
}

/// The state of one body at one step.
#[derive(Clone, Debug)]
pub struct BodyState {
    pub id: u64,
    pub name: String,
    pub transform: Transform,
    pub velocity: Vec3,
    pub angular_velocity: Vec3,
    pub sleeping: bool,
}

/// The state of one body, with the name as text.
pub struct BodyStateSketch {
    pub id: u64,
    pub name: Seq<char>,
    pub transform: Transform,
    pub velocity: Vec3,
    pub angular_velocity: Vec3,
    pub sleeping: bool,
}

impl View for BodyState {
    type V = BodyStateSketch;

    open spec fn view(&self) -> BodyStateSketch {
        BodyStateSketch {
            id: self.id,
            name: self.name@,
            transform: self.transform,
            velocity: self.velocity,
            angular_velocity: self.angular_velocity,
            sleeping: self.sleeping,
        }
    }
}

/// What a completed sequence of frames comes to.
#[derive(Clone, Copy, Debug, PartialEq, Eq, Structural)]
pub struct AggregateMetrics {
    pub energy_drift_percent: Double,
    pub initial_energy: Single,
    pub final_energy: Single,
    pub max_penetration_ever: Single,
    pub total_constraint_violations: u64,
    pub stabilization_step: Option<u64>,
    pub stability_time: Option<Single>,
    pub average_contact_count: Single,
    pub frame_count: u64,
}

impl EnergyMetrics {
    /// No energy at all.
    pub open spec fn none() -> EnergyMetrics {
        EnergyMetrics { kinetic: Single::of(0), potential: Single::of(0), total: Single::of(0) }
    }

    /// The two parts with their sum as the total.
    pub fn new<U: Fn(Operation, u64, u64) -> u64>(kinetic: Single, potential: Single, unit: &U) -> (e:
        EnergyMetrics)
        requires
            unit_ready(unit),
        ensures
            e == (EnergyMetrics { kinetic, potential, total: sum(unit, kinetic, potential) }),
    {
        EnergyMetrics { kinetic, potential, total: plus(unit, kinetic, potential) }
    }
}

impl Default for EnergyMetrics {
    fn default() -> (e: EnergyMetrics)
        ensures
            e == EnergyMetrics::none(),
    {
        EnergyMetrics {
            kinetic: Single { bits: 0 },
            potential: Single { bits: 0 },
            total: Single { bits: 0 },
        }
    }
}

impl MomentumMetrics {
    /// No momentum at all.
    pub open spec fn none() -> MomentumMetrics {
        MomentumMetrics {
            linear: Vec3::zero_vector(),
            angular: Vec3::zero_vector(),
            linear_magnitude: Single::of(0),
            angular_magnitude: Single::of(0),
        }
    }

    /// The two vectors, each with its length.
    pub fn new<U: Fn(Operation, u64, u64) -> u64>(linear: Vec3, angular: Vec3, unit: &U) -> (m:
        MomentumMetrics)
        requires
            unit_ready(unit),
        ensures
            m == (MomentumMetrics {
                linear,
                angular,
                linear_magnitude: linear.length(unit),
                angular_magnitude: angular.length(unit),
            }),
    {
        MomentumMetrics {
            linear,
            angular,
            linear_magnitude: linear.magnitude(unit),
            angular_magnitude: angular.magnitude(unit),
        }
    }
}

impl Default for MomentumMetrics {
    fn default() -> (m: MomentumMetrics)
        ensures
            m == MomentumMetrics::none(),
    {
        MomentumMetrics {
            linear: Vec3::zero(),
            angular: Vec3::zero(),
            linear_magnitude: Single { bits: 0 },
            angular_magnitude: Single { bits: 0 },
        }
    }
}

impl ContactMetrics {
    /// No contact at all.
    pub open spec fn none() -> ContactMetrics {
        ContactMetrics {
            contact_count: 0,
            max_penetration: Single::of(0),
            total_penetration: Single::of(0),
            constraint_violations: 0,
        }
    }
}

impl Default for ContactMetrics {
    fn default() -> (c: ContactMetrics)
        ensures
            c == ContactMetrics::none(),
    {
        ContactMetrics {
            contact_count: 0,
            max_penetration: Single { bits: 0 },
            total_penetration: Single { bits: 0 },
            constraint_violations: 0,
        }
    }
}

impl MetricFrame {
    /// The frame of `step` at `time` with all metrics zero and no bodies.
    pub fn new(step: u64, time: Single) -> (f: MetricFrame)
        ensures
            f.step == step,
            f.time == time,
            f.energy == EnergyMetrics::none(),
            f.momentum == MomentumMetrics::none(),
            f.contacts == ContactMetrics::none(),
            f.bodies@.len() == 0,
    {
        MetricFrame {
            step,
            time,
            energy: EnergyMetrics::default(),
            momentum: MomentumMetrics::default(),
            contacts: ContactMetrics::default(),
            bodies: Vec::new(),
        }
    }
}

/// The sum of the constraint violations of all frames.
pub open spec fn violation_total(frames: Seq<MetricFrame>) -> nat
    decreases frames.len(),
{
    if frames.len() == 0 {
        0
    } else {
        violation_total(frames.drop_last()) + frames.last().contacts.constraint_violations as nat
    }
}

/// The sum of the contact counts of all frames.
pub open spec fn contact_total(frames: Seq<MetricFrame>) -> nat
    decreases frames.len(),
{
    if frames.len() == 0 {
        0
    } else {
        contact_total(frames.drop_last()) + frames.last().contacts.contact_count as nat
    }
}

/// The largest penetration of any frame, and `0.0` at least.
pub open spec fn peak_penetration(frames: Seq<MetricFrame>) -> Single
    decreases frames.len(),
{
    if frames.len() == 0 {
        Single::of(0)
    } else {
        peak_penetration(frames.drop_last()).larger(frames.last().contacts.max_penetration)
    }
}

/// The change of the total energy from `initial` to `last`, in percent of
/// `initial`: `(last - initial) / initial * 100`, and `0.0` where the
/// magnitude of `initial` is not above `1e-6`.
pub open spec fn energy_drift<U: Fn(Operation, u64, u64) -> u64>(
    unit: &U,
    initial: Single,
    last: Single,
) -> Double {
    if Single::of(NEGLIGIBLE_ENERGY).below(initial.absolute()) {
        widened(
            unit,
            product(
                unit,
                quotient(unit, difference(unit, last, initial), initial),
                Single::of(HUNDRED),
            ),
        )
    } else {
        Double::of(0)
    }
}

/// Whether the body sleeps or moves slower than `0.01`.
pub open spec fn body_settled<U: Fn(Operation, u64, u64) -> u64>(body: BodyState, unit: &U) -> bool {
    body.sleeping || body.velocity.length(unit).below(Single::of(REST_SPEED))
}

/// Whether every body of the frame is settled.
pub open spec fn frame_settled<U: Fn(Operation, u64, u64) -> u64>(
    frame: MetricFrame,
    unit: &U,
) -> bool {
    forall|k: int| 0 <= k < frame.bodies@.len() ==> body_settled(#[trigger] frame.bodies@[k], unit)
}

/// The step of the first settled frame, if there is one.
pub open spec fn settled_step<U: Fn(Operation, u64, u64) -> u64>(
    frames: Seq<MetricFrame>,
    unit: &U,
) -> Option<u64> {
    let settled = |f: MetricFrame| frame_settled(f, unit);
    if any(frames, settled) {
        Some(frames[first(frames, settled)].step)
    } else {
        None
    }
}

/// The time of the first frame that carries the step `step`, if there is one.
pub open spec fn time_of_step(frames: Seq<MetricFrame>, step: u64) -> Option<Single> {
    let at_step = |f: MetricFrame| f.step == step;
    if any(frames, at_step) {
        Some(frames[first(frames, at_step)].time)
    } else {
        None
    }
}

/// The time at which the frames settle: that of the first frame with the
/// step of the first settled frame.
pub open spec fn settled_time<U: Fn(Operation, u64, u64) -> u64>(
    frames: Seq<MetricFrame>,
    unit: &U,
) -> Option<Single> {
    match settled_step(frames, unit) {
        Some(step) => time_of_step(frames, step),
        None => None,
    }
}

/// The average number of contacts per frame.
pub open spec fn average_contacts<U: Fn(Operation, u64, u64) -> u64>(
    frames: Seq<MetricFrame>,
    unit: &U,
) -> Single {
    quotient(
        unit,
        single_of_count(unit, contact_total(frames) as u64),
        single_of_count(unit, frames.len() as u64),
    )
}

impl AggregateMetrics {
    /// The aggregate of no frames: every number zero, never settled.
    pub open spec fn none() -> AggregateMetrics {
        AggregateMetrics {
            energy_drift_percent: Double::of(0),
            initial_energy: Single::of(0),
            final_energy: Single::of(0),
            max_penetration_ever: Single::of(0),
            total_constraint_violations: 0,
            stabilization_step: None,
            stability_time: None,
            average_contact_count: Single::of(0),
            frame_count: 0,
        }
    }

    /// What `frames` come to.
    pub open spec fn of<U: Fn(Operation, u64, u64) -> u64>(
        frames: Seq<MetricFrame>,
        unit: &U,
    ) -> AggregateMetrics {
        if frames.len() == 0 {
            AggregateMetrics::none()
        } else {
            AggregateMetrics {
                energy_drift_percent: energy_drift(
                    unit,
                    frames.first().energy.total,
                    frames.last().energy.total,
                ),
                initial_energy: frames.first().energy.total,
                final_energy: frames.last().energy.total,
                max_penetration_ever: peak_penetration(frames),
                total_constraint_violations: violation_total(frames) as u64,
                stabilization_step: settled_step(frames, unit),
                stability_time: settled_time(frames, unit),
                average_contact_count: average_contacts(frames, unit),
                frame_count: frames.len() as u64,
            }
        }
    }

    /// Reduces a completed sequence of frames.
    ///
    /// The two sums are kept in 64 bits, which any sequence of up to 2^32
    /// frames fits (see [`lemma_totals_bounded`]).
    pub fn compute<U: Fn(Operation, u64, u64) -> u64>(frames: &[MetricFrame], unit: &U) -> (r:
        AggregateMetrics)
        requires
            unit_ready(unit),
            violation_total(frames@) <= u64::MAX,
            contact_total(frames@) <= u64::MAX,
        ensures
            r == AggregateMetrics::of(frames@, unit),
            forall|k: int|
                0 <= k < frames@.len() && frame_settled(#[trigger] frames@[k], unit) && (forall|
                    j: int,
                | 0 <= j < k ==> !frame_settled(#[trigger] frames@[j], unit))
                    ==> r.stabilization_step == Some(frames@[k].step),
            (forall|j: int| 0 <= j < frames@.len() ==> !frame_settled(#[trigger] frames@[j], unit))
                ==> r.stabilization_step.is_none() && r.stability_time.is_none(),
    {
        proof {
            assert forall|k: int|
                0 <= k < frames@.len() && frame_settled(#[trigger] frames@[k], unit) && (forall|
                    j: int,
                | 0 <= j < k ==> !frame_settled(#[trigger] frames@[j], unit)) implies AggregateMetrics::of(
                frames@,
                unit,
            ).stabilization_step == Some(frames@[k].step) by {
                lemma_stabilization(frames@, unit, k);
            }
            lemma_stabilization(frames@, unit, 0);
        }
        let n = frames.len();
        if n == 0 {
            return AggregateMetrics::default();
        }
        let initial_energy = frames[0].energy.total;
        let final_energy = frames[n - 1].energy.total;
        let energy_drift_percent = if initial_energy.abs().gt(Single { bits: NEGLIGIBLE_ENERGY }) {
            widen(
                unit,
                times(
                    unit,
                    over(unit, minus(unit, final_energy, initial_energy), initial_energy),
                    Single { bits: HUNDRED },
                ),
            )
        } else {
            Double { bits: 0 }
        };

        let mut max_penetration_ever = Single { bits: 0 };
        let mut total_constraint_violations: u64 = 0;
        let mut total_contacts: u64 = 0;
        let mut i: usize = 0;
        while i < n
            invariant
                n == frames@.len(),
                i <= n,
                max_penetration_ever == peak_penetration(frames@.take(i as int)),
                total_constraint_violations == violation_total(frames@.take(i as int)),
                total_contacts == contact_total(frames@.take(i as int)),
                violation_total(frames@) <= u64::MAX,
                contact_total(frames@) <= u64::MAX,
            decreases n - i,
        {
            proof {
                assert(frames@.take(i + 1).drop_last() =~= frames@.take(i as int));
                lemma_totals_grow(frames@, i + 1);
            }
            max_penetration_ever = max_penetration_ever.max(frames[i].contacts.max_penetration);
            total_constraint_violations = total_constraint_violations
                + frames[i].contacts.constraint_violations as u64;
            total_contacts = total_contacts + frames[i].contacts.contact_count as u64;
            i = i + 1;
        }
        assert(frames@.take(n as int) =~= frames@);

        let average_contact_count = over(
            unit,
            count_to_single(unit, total_contacts),
            count_to_single(unit, n as u64),
        );

        let stabilization_step = first_settled_step(frames, unit);
        let stability_time = match stabilization_step {
            Some(step) => first_time_of_step(frames, step),
            None => None,
        };

        AggregateMetrics {
            energy_drift_percent,
            initial_energy,
            final_energy,
            max_penetration_ever,
            total_constraint_violations,
            stabilization_step,
            stability_time,
            average_contact_count,
            frame_count: n as u64,
        }
    }
}

impl Default for AggregateMetrics {
    fn default() -> (a: AggregateMetrics)
        ensures
            a == AggregateMetrics::none(),
    {
        AggregateMetrics {
            energy_drift_percent: Double { bits: 0 },
            initial_energy: Single { bits: 0 },
            final_energy: Single { bits: 0 },
            max_penetration_ever: Single { bits: 0 },
            total_constraint_violations: 0,
            stabilization_step: None,
            stability_time: None,
            average_contact_count: Single { bits: 0 },
            frame_count: 0,
        }
    }
}

/// The sums over a prefix are no larger than those over the whole.
pub proof fn lemma_totals_grow(frames: Seq<MetricFrame>, k: int)
    requires
        0 <= k <= frames.len(),
    ensures
        violation_total(frames.take(k)) <= violation_total(frames),
        contact_total(frames.take(k)) <= contact_total(frames),
    decreases frames.len() - k,
{
    if k == frames.len() {
        assert(frames.take(k) =~= frames);
    } else {
        lemma_totals_grow(frames, k + 1);
        assert(frames.take(k + 1).drop_last() =~= frames.take(k));
    }
}

/// Neither sum is larger than `u32::MAX` for each frame, so both fit 64
/// bits for any sequence of up to 2^32 frames.
pub proof fn lemma_totals_bounded(frames: Seq<MetricFrame>)
    ensures
        violation_total(frames) <= frames.len() * 0xffff_ffff,
        contact_total(frames) <= frames.len() * 0xffff_ffff,
        frames.len() <= 0x1_0000_0000 ==> violation_total(frames) <= u64::MAX && contact_total(
            frames,
        ) <= u64::MAX,
    decreases frames.len(),
{
    if frames.len() > 0 {
        lemma_totals_bounded(frames.drop_last());
        assert(frames.drop_last().len() * 0xffff_ffff + 0xffff_ffff == frames.len() * 0xffff_ffff)
            by (nonlinear_arith)
            requires
                frames.drop_last().len() + 1 == frames.len(),
        ;
    }
    if frames.len() <= 0x1_0000_0000 {
        assert(frames.len() * 0xffff_ffff <= 0x1_0000_0000 * 0xffff_ffff) by (nonlinear_arith)
            requires
                frames.len() <= 0x1_0000_0000,
        ;
    }
}

fn is_body_settled<U: Fn(Operation, u64, u64) -> u64>(body: &BodyState, unit: &U) -> (r: bool)
    requires
        unit_ready(unit),
    ensures
        r == body_settled(*body, unit),
{
    body.sleeping || body.velocity.magnitude(unit).lt(Single { bits: REST_SPEED })
}

fn is_frame_settled<U: Fn(Operation, u64, u64) -> u64>(frame: &MetricFrame, unit: &U) -> (r: bool)
    requires
        unit_ready(unit),
    ensures
        r == frame_settled(*frame, unit),
{
    let mut k: usize = 0;
    while k < frame.bodies.len()
        invariant
            unit_ready(unit),
            k <= frame.bodies@.len(),
            forall|j: int| 0 <= j < k ==> body_settled(#[trigger] frame.bodies@[j], unit),
        decreases frame.bodies.len() - k,
    {
        if !is_body_settled(&frame.bodies[k], unit) {
            return false;
        }
        k = k + 1;
    }
    true
}

fn first_settled_step<U: Fn(Operation, u64, u64) -> u64>(frames: &[MetricFrame], unit: &U) -> (r:
    Option<u64>)
    requires
        unit_ready(unit),
    ensures
        r == settled_step(frames@, unit),
{
    let ghost settled = |f: MetricFrame| frame_settled(f, unit);
    let mut i: usize = 0;
    while i < frames.len()
        invariant
            unit_ready(unit),
            i <= frames@.len(),
            settled == (|f: MetricFrame| frame_settled(f, unit)),
            forall|j: int| 0 <= j < i ==> !settled(#[trigger] frames@[j]),
        decreases frames.len() - i,
    {
        if is_frame_settled(&frames[i], unit) {
            proof {
                assert(settled(frames@[i as int]));
                assert(is_first(frames@, settled, i as int));
                lemma_first(frames@, settled);
            }
            return Some(frames[i].step);
        }
        i = i + 1;
    }
    assert(!any(frames@, settled));
    None
}

fn first_time_of_step(frames: &[MetricFrame], step: u64) -> (r: Option<Single>)
    ensures
        r == time_of_step(frames@, step),
{
    let ghost at_step = |f: MetricFrame| f.step == step;
    let mut i: usize = 0;
    while i < frames.len()
        invariant
            i <= frames@.len(),
            at_step == (|f: MetricFrame| f.step == step),
            forall|j: int| 0 <= j < i ==> !at_step(#[trigger] frames@[j]),
        decreases frames.len() - i,
    {
        if frames[i].step == step {
            proof {
                assert(at_step(frames@[i as int]));
                assert(is_first(frames@, at_step, i as int));
                lemma_first(frames@, at_step);
            }
            return Some(frames[i].time);
        }
        i = i + 1;
    }
    assert(!any(frames@, at_step));
    None
}

/// A sequence that begins to be settled at index `k` stabilizes at the step
/// of frame `k`, and one that is never settled does not stabilize and has
/// no stability time.
pub proof fn lemma_stabilization<U: Fn(Operation, u64, u64) -> u64>(
    frames: Seq<MetricFrame>,
    unit: &U,
    k: int,
)
    ensures
        (0 <= k < frames.len() && frame_settled(frames[k], unit) && forall|j: int|
            0 <= j < k ==> !frame_settled(#[trigger] frames[j], unit)) ==> AggregateMetrics::of(
            frames,
            unit,
        ).stabilization_step == Some(frames[k].step),
        (forall|j: int| 0 <= j < frames.len() ==> !frame_settled(#[trigger] frames[j], unit))
            ==> AggregateMetrics::of(frames, unit).stabilization_step.is_none()
            && AggregateMetrics::of(frames, unit).stability_time.is_none(),
{
    let settled = |f: MetricFrame| frame_settled(f, unit);
    if 0 <= k < frames.len() && frame_settled(frames[k], unit) && forall|j: int|
        0 <= j < k ==> !frame_settled(#[trigger] frames[j], unit) {
        assert(settled(frames[k]));
        assert(is_first(frames, settled, k));
        lemma_first(frames, settled);
    }
    if forall|j: int| 0 <= j < frames.len() ==> !frame_settled(#[trigger] frames[j], unit) {
        if any(frames, settled) {
            let i = choose|i: int| 0 <= i < frames.len() && settled(#[trigger] frames[i]);
            assert(frame_settled(frames[i], unit));
        }
    }
}

} // verus!
