//! Readings of a sequence of frames: when it comes to rest, how well it
//! keeps its energy, where it penetrates most, how a metric runs on average.

use vstd::prelude::*;
use crate::arith::{
    count_to_single, over, plus, quotient, single_of_count, sum, unit_ready, widen, widened,
    Operation,
};
use crate::ieee::{Double, Single, SINGLE_SIGN};
use crate::metrics::{BodyState, MetricFrame, NEGLIGIBLE_ENERGY};
use crate::seqs::{any, first, is_first, lemma_first};

verus! {

/// Bit pattern of binary64 `1.0`.
pub const DOUBLE_ONE: u64 = 0x3ff0_0000_0000_0000;

/// Whether the body sleeps or both its linear and its angular speed are
/// below `threshold`.
pub open spec fn body_still<U: Fn(Operation, u64, u64) -> u64>(
    body: BodyState,
    threshold: Single,
    unit: &U,
) -> bool {
    body.sleeping || (body.velocity.length(unit).below(threshold)
        && body.angular_velocity.length(unit).below(threshold))
}

/// Whether every body of the frame is still.
pub open spec fn frame_still<U: Fn(Operation, u64, u64) -> u64>(
    frame: MetricFrame,
    threshold: Single,
    unit: &U,
) -> bool {
    forall|k: int|
        0 <= k < frame.bodies@.len() ==> body_still(#[trigger] frame.bodies@[k], threshold, unit)
}

/// The step of the first frame in which every body is still, if there is one.
pub open spec fn still_step<U: Fn(Operation, u64, u64) -> u64>(
    frames: Seq<MetricFrame>,
    threshold: Single,
    unit: &U,
) -> Option<u64> {
    let still = |f: MetricFrame| frame_still(f, threshold, unit);
    if any(frames, still) {
        Some(frames[first(frames, still)].step)
    } else {
        None
    }
}

fn is_body_still<U: Fn(Operation, u64, u64) -> u64>(
    body: &BodyState,
    threshold: Single,
    unit: &U,
) -> (r: bool)
    requires
        unit_ready(unit),
    ensures
        r == body_still(*body, threshold, unit),
{
    body.sleeping || (body.velocity.magnitude(unit).lt(threshold)
        && body.angular_velocity.magnitude(unit).lt(threshold))
}

fn is_frame_still<U: Fn(Operation, u64, u64) -> u64>(
    frame: &MetricFrame,
    threshold: Single,
    unit: &U,
) -> (r: bool)
    requires
        unit_ready(unit),
    ensures
        r == frame_still(*frame, threshold, unit),
{
    let mut k: usize = 0;
    while k < frame.bodies.len()
        invariant
            unit_ready(unit),
            k <= frame.bodies@.len(),
            forall|j: int| 0 <= j < k ==> body_still(#[trigger] frame.bodies@[j], threshold, unit),
        decreases frame.bodies.len() - k,
    {
        if !is_body_still(&frame.bodies[k], threshold, unit) {
            return false;
        }
        k = k + 1;
    }
    true
}

/// The step at which the frames come to rest: that of the first frame in
/// which every body sleeps or is slower than `velocity_threshold`, both in
/// its linear and in its angular motion.
pub fn detect_stability<U: Fn(Operation, u64, u64) -> u64>(
    frames: &[MetricFrame],
    velocity_threshold: Single,
    unit: &U,
) -> (r: Option<u64>)
    requires
        unit_ready(unit),
    ensures
        r == still_step(frames@, velocity_threshold, unit),
{
    let ghost still = |f: MetricFrame| frame_still(f, velocity_threshold, unit);
    let mut i: usize = 0;
    while i < frames.len()
        invariant
            unit_ready(unit),
            i <= frames@.len(),
            still == (|f: MetricFrame| frame_still(f, velocity_threshold, unit)),
            forall|j: int| 0 <= j < i ==> !still(#[trigger] frames@[j]),
        decreases frames.len() - i,
    {
        if is_frame_still(&frames[i], velocity_threshold, unit) {
            proof {
                assert(still(frames@[i as int]));
                assert(is_first(frames@, still, i as int));
                lemma_first(frames@, still);
            }
            return Some(frames[i].step);
        }
        i = i + 1;
    }
    assert(!any(frames@, still));
    None
}

/// Frames that begin to be still at index `k` come to rest at the step of
/// frame `k`, and frames that are never still do not come to rest.
pub proof fn lemma_detect_stability<U: Fn(Operation, u64, u64) -> u64>(
    frames: Seq<MetricFrame>,
    threshold: Single,
    unit: &U,
    k: int,
)
    ensures
        (0 <= k < frames.len() && frame_still(frames[k], threshold, unit) && forall|j: int|
            0 <= j < k ==> !frame_still(#[trigger] frames[j], threshold, unit)) ==> still_step(
            frames,
            threshold,
            unit,
        ) == Some(frames[k].step),
        (forall|j: int| 0 <= j < frames.len() ==> !frame_still(#[trigger] frames[j], threshold, unit))
            ==> still_step(frames, threshold, unit).is_none(),
{
    let still = |f: MetricFrame| frame_still(f, threshold, unit);
    if 0 <= k < frames.len() && frame_still(frames[k], threshold, unit) && forall|j: int|
        0 <= j < k ==> !frame_still(#[trigger] frames[j], threshold, unit) {
        assert(still(frames[k]));
        assert(is_first(frames, still, k));
        lemma_first(frames, still);
    }
    if forall|j: int| 0 <= j < frames.len() ==> !frame_still(#[trigger] frames[j], threshold, unit) {
        if any(frames, still) {
            let i = choose|i: int| 0 <= i < frames.len() && still(#[trigger] frames[i]);
            assert(frame_still(frames[i], threshold, unit));
        }
    }
}

/// The total energy of the last frame over that of the first, and `1.0`
/// where there are fewer than two frames or the magnitude of the first
/// energy is below `1e-6`.
pub open spec fn conservation_ratio<U: Fn(Operation, u64, u64) -> u64>(
    frames: Seq<MetricFrame>,
    unit: &U,
) -> Double {
    if frames.len() < 2 {
        Double::of(DOUBLE_ONE)
    } else if frames.first().energy.total.absolute().below(Single::of(NEGLIGIBLE_ENERGY)) {
        Double::of(DOUBLE_ONE)
    } else {
        widened(unit, quotient(unit, frames.last().energy.total, frames.first().energy.total))
    }
}

/// How much of its energy the run kept: final over initial total energy.
pub fn energy_conservation_ratio<U: Fn(Operation, u64, u64) -> u64>(
    frames: &[MetricFrame],
    unit: &U,
) -> (r: Double)
    requires
        unit_ready(unit),
    ensures
        r == conservation_ratio(frames@, unit),
{
    let n = frames.len();
    if n < 2 {
        return Double { bits: DOUBLE_ONE };
    }
    let initial = frames[0].energy.total;
    let final_energy = frames[n - 1].energy.total;
    if initial.abs().lt(Single { bits: NEGLIGIBLE_ENERGY }) {
        return Double { bits: DOUBLE_ONE };
    }
    widen(unit, over(unit, final_energy, initial))
}

/// Whether frame `i` penetrates at least as deep as every frame and deeper
/// than every later one.
pub open spec fn is_last_peak(frames: Seq<MetricFrame>, i: int) -> bool {
    &&& 0 <= i < frames.len()
    &&& forall|j: int|
        0 <= j < frames.len() ==> !frames[i].contacts.max_penetration.below(
            (#[trigger] frames[j]).contacts.max_penetration,
        )
    &&& forall|j: int|
        i < j < frames.len() ==> (#[trigger] frames[j]).contacts.max_penetration.below(
            frames[i].contacts.max_penetration,
        )
}

/// Whether the largest penetrations of the frames can be ordered: none of
/// them is a NaN, unless there is nothing to compare.
pub open spec fn penetrations_ordered(frames: Seq<MetricFrame>) -> bool {
    frames.len() >= 2 ==> forall|j: int|
        0 <= j < frames.len() ==> !(#[trigger] frames[j]).contacts.max_penetration.nan()
}

/// The frame with the largest penetration, the last of them where several
/// share it; none where there is no frame.
pub fn max_penetration_frame(frames: &[MetricFrame]) -> (r: Option<&MetricFrame>)
    requires
        penetrations_ordered(frames@),
    ensures
        r.is_none() <==> frames@.len() == 0,
        r matches Some(f) ==> exists|i: int| is_last_peak(frames@, i) && *f == frames@[i],
{
    let n = frames.len();
    if n == 0 {
        return None;
    }
    let mut best: usize = 0;
    let mut i: usize = 1;
    while i < n
        invariant
            n == frames@.len(),
            1 <= i <= n,
            best < i,
            penetrations_ordered(frames@),
            forall|j: int|
                0 <= j < i ==> !frames@[best as int].contacts.max_penetration.below(
                    (#[trigger] frames@[j]).contacts.max_penetration,
                ),
            forall|j: int|
                best < j < i ==> (#[trigger] frames@[j]).contacts.max_penetration.below(
                    frames@[best as int].contacts.max_penetration,
                ),
        decreases n - i,
    {
        proof {
            assert(!frames@[best as int].contacts.max_penetration.nan());
            assert(!frames@[i as int].contacts.max_penetration.nan());
        }
        if !frames[best].contacts.max_penetration.gt(frames[i].contacts.max_penetration) {
            proof {
                assert forall|j: int| 0 <= j < i + 1 implies !frames@[i as int].contacts.max_penetration.below(
                    (#[trigger] frames@[j]).contacts.max_penetration,
                ) by {
                    assert(!frames@[j].contacts.max_penetration.nan());
                    if j < i {
                        assert(!frames@[best as int].contacts.max_penetration.below(
                            frames@[j].contacts.max_penetration,
                        ));
                    }
                }
            }
            best = i;
        }
        i = i + 1;
    }
    assert(is_last_peak(frames@, best as int));
    Some(&frames[best])
}

/// Among frames whose penetrations can be ordered only one index is the
/// last peak.
pub proof fn lemma_last_peak_unique(frames: Seq<MetricFrame>, i: int, j: int)
    requires
        penetrations_ordered(frames),
        is_last_peak(frames, i),
        is_last_peak(frames, j),
    ensures
        i == j,
{
    if i < j {
        assert(frames[j].contacts.max_penetration.below(frames[i].contacts.max_penetration));
        assert(!frames[j].contacts.max_penetration.below(frames[i].contacts.max_penetration));
    } else if j < i {
        assert(frames[i].contacts.max_penetration.below(frames[j].contacts.max_penetration));
        assert(!frames[i].contacts.max_penetration.below(frames[j].contacts.max_penetration));
    }
}

/// A reader is ready when it accepts every frame and is a function of it.
pub open spec fn reader_ready<F: Fn(&MetricFrame) -> Single>(reader: &F) -> bool {
    &&& forall|f: &MetricFrame| #[trigger] reader.requires((f,))
    &&& forall|f: &MetricFrame, r: Single, s: Single|
        #[trigger] reader.ensures((f,), r) && #[trigger] reader.ensures((f,), s) ==> r == s
}

/// What `reader` reads off `frame`.
pub open spec fn reading<F: Fn(&MetricFrame) -> Single>(reader: &F, frame: MetricFrame) -> Single {
    choose|r: Single| reader.ensures((&frame,), r)
}

/// The sum of the readings of `frames`, added up from the left onto `-0.0`.
pub open spec fn reading_total<F: Fn(&MetricFrame) -> Single, U: Fn(Operation, u64, u64) -> u64>(
    frames: Seq<MetricFrame>,
    reader: &F,
    unit: &U,
) -> Single
    decreases frames.len(),
{
    if frames.len() == 0 {
        Single::of(SINGLE_SIGN)
    } else {
        sum(
            unit,
            reading_total(frames.drop_last(), reader, unit),
            reading(reader, frames.last()),
        )
    }
}

/// The running average of a metric over `window` frames: item `i` is the
/// mean of the readings of frames `i` to `i + window - 1`. Fewer frames than
/// `window` give their readings as they are.
pub open spec fn averages<F: Fn(&MetricFrame) -> Single, U: Fn(Operation, u64, u64) -> u64>(
    frames: Seq<MetricFrame>,
    window: nat,
    reader: &F,
    unit: &U,
) -> Seq<Single> {
    if frames.len() < window {
        Seq::new(frames.len(), |i: int| reading(reader, frames[i]))
    } else {
        Seq::new(
            (frames.len() - window + 1) as nat,
            |i: int|
                quotient(
                    unit,
                    reading_total(frames.subrange(i, i + window), reader, unit),
                    single_of_count(unit, window as u64),
                ),
        )
    }
}

fn read<F: Fn(&MetricFrame) -> Single>(reader: &F, frame: &MetricFrame) -> (r: Single)
    requires
        reader_ready(reader),
    ensures
        r == reading(reader, *frame),
{
    reader(frame)
}

/// The running average of the metric that `extractor` reads, over windows
/// of `window` frames.
pub fn running_average<F: Fn(&MetricFrame) -> Single, U: Fn(Operation, u64, u64) -> u64>(
    frames: &[MetricFrame],
    window: usize,
    extractor: &F,
    unit: &U,
) -> (r: Vec<Single>)
    requires
        window > 0,
        reader_ready(extractor),
        unit_ready(unit),
    ensures
        r@ == averages(frames@, window as nat, extractor, unit),
{
    let n = frames.len();
    let mut out: Vec<Single> = Vec::new();
    if n < window {
        let mut i: usize = 0;
        while i < n
            invariant
                n == frames@.len(),
                i <= n,
                reader_ready(extractor),
                out@.len() == i,
                forall|j: int| 0 <= j < i ==> out@[j] == reading(extractor, frames@[j]),
            decreases n - i,
        {
            out.push(read(extractor, &frames[i]));
            i = i + 1;
        }
        assert(out@ =~= averages(frames@, window as nat, extractor, unit));
        return out;
    }
    let width = count_to_single(unit, window as u64);
    let last = n - window;
    let mut i: usize = 0;
    while i <= last
        invariant
            n == frames@.len(),
            last == n - window,
            window > 0,
            window <= n,
            i <= last + 1,
            reader_ready(extractor),
            unit_ready(unit),
            width == single_of_count(unit, window as u64),
            out@.len() == i,
            forall|j: int|
                0 <= j < i ==> out@[j] == quotient(
                    unit,
                    reading_total(frames@.subrange(j, j + window), extractor, unit),
                    width,
                ),
        decreases last + 1 - i,
    {
        let mut total = Single { bits: SINGLE_SIGN };
        let mut k: usize = 0;
        let ghost span = frames@.subrange(i as int, i + window);
        assert(span.take(0) =~= Seq::<MetricFrame>::empty());
        while k < window
            invariant
                n == frames@.len(),
                i + window <= n,
                k <= window,
                reader_ready(extractor),
                unit_ready(unit),
                span == frames@.subrange(i as int, i + window),
                total == reading_total(span.take(k as int), extractor, unit),
            decreases window - k,
        {
            proof {
                assert(span.take(k + 1).drop_last() =~= span.take(k as int));
                assert(span.take(k + 1).last() == frames@[i + k]);
            }
            total = plus(unit, total, read(extractor, &frames[i + k]));
            k = k + 1;
        }
        assert(span.take(window as int) =~= span);
        out.push(over(unit, total, width));
        i = i + 1;
    }
    assert(out@ =~= averages(frames@, window as nat, extractor, unit));
    out
}

} // verus!
