//! The report of one experiment: acceptance criteria and baseline comparison.

use vstd::prelude::*;
use vstd::string::StringExecFns;
use crate::arith::{count_to_double, double_of_count, unit_ready, widen, widened, Operation};
use crate::experiment::{texts, CriteriaConfig};
use crate::ieee::{Double, Single};
use crate::metrics::{contact_total, violation_total, AggregateMetrics, MetricFrame};
use crate::names::{
    distinct_names, first_index, has_name, lemma_first_index, lemma_lookup_upsert, lookup, upsert,
    NameMap,
};

verus! {

/// Where a report stands.
#[derive(Clone, Copy, Debug, PartialEq, Eq, Structural)]
pub enum ReportStatus {
    /// Created, not yet evaluated.
    Pending,
    /// Every evaluated criterion passed.
    Passed,
    /// Some evaluated criterion failed.
    Failed,
    /// The run could not be carried out.
    Error,
}

/// The outcome of one criterion.
#[derive(Clone, Copy, Debug, PartialEq, Eq, Structural)]
pub struct CriterionResult {
    /// The observed value of the metric.
    pub value: Double,
    /// The lower bound that was applied, if any.
    pub min: Option<Double>,
    /// The upper bound that was applied, if any.
    pub max: Option<Double>,
    pub passed: bool,
}

/// What to do with a result, given its baseline.
#[derive(Clone, Copy, Debug, PartialEq, Eq, Structural)]
pub enum ComparisonRecommendation {
    Accept,
    Reject,
    Review,
}

/// How a report compares with a baseline.
#[derive(Clone, Debug)]
pub struct BaselineComparison {
    pub baseline_name: String,
    pub metrics_improved: Vec<String>,
    pub metrics_regressed: Vec<String>,
    pub recommendation: ComparisonRecommendation,
}

/// What one experiment came to.
#[derive(Clone, Debug)]
pub struct SimulationReport {
    pub status: ReportStatus,
    pub experiment_name: String,
    pub total_steps: u64,
    pub total_time: Single,
    pub metrics: AggregateMetrics,
    pub criteria_results: NameMap<CriterionResult>,
    pub baseline_comparison: Option<BaselineComparison>,
    pub error: Option<String>,
}

/// The value that a criterion named `name` is held against, if `name` is one
/// of the metrics that criteria can speak of. The step of stabilization is
/// one only where the frames stabilized.
pub open spec fn metric_value<U: Fn(Operation, u64, u64) -> u64>(
    metrics: AggregateMetrics,
    name: Seq<char>,
    unit: &U,
) -> Option<Double> {
    if name == "energy_drift_percent"@ {
        Some(metrics.energy_drift_percent)
    } else if name == "max_penetration_ever"@ {
        Some(widened(unit, metrics.max_penetration_ever))
    } else if name == "total_constraint_violations"@ {
        Some(double_of_count(unit, metrics.total_constraint_violations))
    } else if name == "average_contact_count"@ {
        Some(widened(unit, metrics.average_contact_count))
    } else if name == "stabilization_step"@ {
        match metrics.stabilization_step {
            Some(step) => Some(double_of_count(unit, step)),
            None => None,
        }
    } else {
        None
    }
}

/// The outcome of `config` on the observed `value`.
pub open spec fn outcome<U: Fn(Operation, u64, u64) -> u64>(
    config: CriteriaConfig,
    value: Double,
    unit: &U,
) -> CriterionResult {
    CriterionResult { value, min: config.min, max: config.max, passed: config.accepts(value, unit) }
}

/// `before` with the outcome of every criterion that names a metric, each
/// under the name of its criterion. A criterion that names no metric leaves
/// no trace.
pub open spec fn results_after<U: Fn(Operation, u64, u64) -> u64>(
    criteria: Seq<(Seq<char>, CriteriaConfig)>,
    metrics: AggregateMetrics,
    unit: &U,
    before: Seq<(Seq<char>, CriterionResult)>,
) -> Seq<(Seq<char>, CriterionResult)>
    decreases criteria.len(),
{
    if criteria.len() == 0 {
        before
    } else {
        let earlier = results_after(criteria.drop_last(), metrics, unit, before);
        let (name, config) = criteria.last();
        match metric_value(metrics, name, unit) {
            Some(value) => upsert(earlier, name, outcome(config, value, unit)),
            None => earlier,
        }
    }
}

/// Whether every criterion that names a metric accepts the value of it.
pub open spec fn all_accepted<U: Fn(Operation, u64, u64) -> u64>(
    criteria: Seq<(Seq<char>, CriteriaConfig)>,
    metrics: AggregateMetrics,
    unit: &U,
) -> bool {
    forall|i: int|
        0 <= i < criteria.len() ==> (metric_value(metrics, (#[trigger] criteria[i]).0, unit)
            matches Some(value) ==> criteria[i].1.accepts(value, unit))
}

/// `Passed` where every evaluated criterion passed, `Failed` otherwise.
pub open spec fn verdict<U: Fn(Operation, u64, u64) -> u64>(
    criteria: Seq<(Seq<char>, CriteriaConfig)>,
    metrics: AggregateMetrics,
    unit: &U,
) -> ReportStatus {
    if all_accepted(criteria, metrics, unit) {
        ReportStatus::Passed
    } else {
        ReportStatus::Failed
    }
}

/// `name` where `listed`, nothing otherwise.
pub open spec fn listed_if(listed: bool, name: Seq<char>) -> Seq<Seq<char>> {
    if listed {
        seq![name]
    } else {
        Seq::empty()
    }
}

/// The metrics on which `current` is strictly better than `baseline`: a
/// smaller magnitude of energy drift, a smaller largest penetration, fewer
/// constraint violations.
pub open spec fn improved(current: AggregateMetrics, baseline: AggregateMetrics) -> Seq<Seq<char>> {
    listed_if(
        current.energy_drift_percent.absolute().below(baseline.energy_drift_percent.absolute()),
        "energy_drift"@,
    ) + listed_if(
        current.max_penetration_ever.below(baseline.max_penetration_ever),
        "max_penetration"@,
    ) + listed_if(
        current.total_constraint_violations < baseline.total_constraint_violations,
        "constraint_violations"@,
    )
}

/// The metrics on which `current` is strictly worse than `baseline`.
pub open spec fn regressed(current: AggregateMetrics, baseline: AggregateMetrics) -> Seq<
    Seq<char>,
> {
    listed_if(
        baseline.energy_drift_percent.absolute().below(current.energy_drift_percent.absolute()),
        "energy_drift"@,
    ) + listed_if(
        baseline.max_penetration_ever.below(current.max_penetration_ever),
        "max_penetration"@,
    ) + listed_if(
        current.total_constraint_violations > baseline.total_constraint_violations,
        "constraint_violations"@,
    )
}

/// Accept where something improved and nothing regressed, reject where
/// something regressed and nothing improved, review in every other case.
pub open spec fn recommendation(improved: Seq<Seq<char>>, regressed: Seq<Seq<char>>)
    -> ComparisonRecommendation {
    if regressed.len() == 0 && improved.len() > 0 {
        ComparisonRecommendation::Accept
    } else if regressed.len() > 0 && improved.len() == 0 {
        ComparisonRecommendation::Reject
    } else {
        ComparisonRecommendation::Review
    }
}

fn lookup_metric<U: Fn(Operation, u64, u64) -> u64>(
    metrics: &AggregateMetrics,
    name: &String,
    unit: &U,
) -> (r: Option<Double>)
    requires
        unit_ready(unit),
    ensures
        r == metric_value(*metrics, name@, unit),
{
    if *name == String::from_str("energy_drift_percent") {
        Some(metrics.energy_drift_percent)
    } else if *name == String::from_str("max_penetration_ever") {
        Some(widen(unit, metrics.max_penetration_ever))
    } else if *name == String::from_str("total_constraint_violations") {
        Some(count_to_double(unit, metrics.total_constraint_violations))
    } else if *name == String::from_str("average_contact_count") {
        Some(widen(unit, metrics.average_contact_count))
    } else if *name == String::from_str("stabilization_step") {
        match metrics.stabilization_step {
            Some(step) => Some(count_to_double(unit, step)),
            None => None,
        }
    } else {
        None
    }
}

impl SimulationReport {
    /// A pending report for the experiment `experiment_name`.
    pub fn new(experiment_name: String) -> (r: SimulationReport)
        ensures
            r.status == ReportStatus::Pending,
            r.experiment_name == experiment_name,
            r.total_steps == 0,
            r.total_time == Single::of(0),
            r.metrics == AggregateMetrics::none(),
            r.criteria_results@.len() == 0,
            r.baseline_comparison.is_none(),
            r.error.is_none(),
    {
        SimulationReport {
            status: ReportStatus::Pending,
            experiment_name,
            total_steps: 0,
            total_time: Single { bits: 0 },
            metrics: AggregateMetrics::default(),
            criteria_results: NameMap::new(),
            baseline_comparison: None,
            error: None,
        }
    }

    /// The report of an experiment that could not be run, with the reason.
    pub fn with_error(experiment_name: String, error: String) -> (r: SimulationReport)
        ensures
            r.status == ReportStatus::Error,
            r.experiment_name == experiment_name,
            r.total_steps == 0,
            r.total_time == Single::of(0),
            r.metrics == AggregateMetrics::none(),
            r.criteria_results@.len() == 0,
            r.baseline_comparison.is_none(),
            r.error == Some(error),
    {
        SimulationReport {
            status: ReportStatus::Error,
            experiment_name,
            total_steps: 0,
            total_time: Single { bits: 0 },
            metrics: AggregateMetrics::default(),
            criteria_results: NameMap::new(),
            baseline_comparison: None,
            error: Some(error),
        }
    }

    /// Closes the report over the frames of a run: steps and time of the last
    /// frame, the aggregate of all frames, and the criteria held against it.
    pub fn finalize<U: Fn(Operation, u64, u64) -> u64>(
        &mut self,
        frames: &[MetricFrame],
        criteria: &NameMap<CriteriaConfig>,
        unit: &U,
    )
        requires
            unit_ready(unit),
            violation_total(frames@) <= u64::MAX,
            contact_total(frames@) <= u64::MAX,
        ensures
            final(self).total_steps == (if frames@.len() > 0 {
                frames@.last().step
            } else {
                old(self).total_steps
            }),
            final(self).total_time == (if frames@.len() > 0 {
                frames@.last().time
            } else {
                old(self).total_time
            }),
            final(self).metrics == AggregateMetrics::of(frames@, unit),
            final(self).status == verdict(criteria@, AggregateMetrics::of(frames@, unit), unit),
            final(self).criteria_results@ == results_after(
                criteria@,
                AggregateMetrics::of(frames@, unit),
                unit,
                old(self).criteria_results@,
            ),
            criteria@.len() == 0 ==> final(self).status == ReportStatus::Passed
                && final(self).criteria_results@ == old(self).criteria_results@,
            final(self).experiment_name == old(self).experiment_name,
            final(self).baseline_comparison == old(self).baseline_comparison,
            final(self).error == old(self).error,
    {
        let n = frames.len();
        if n > 0 {
            self.total_steps = frames[n - 1].step;
            self.total_time = frames[n - 1].time;
        }
        self.metrics = AggregateMetrics::compute(frames, unit);
        self.evaluate_criteria(criteria, unit);
    }

    /// Holds every criterion that names a metric against the metrics of the
    /// report, records the outcomes and sets the status.
    pub fn evaluate_criteria<U: Fn(Operation, u64, u64) -> u64>(
        &mut self,
        criteria: &NameMap<CriteriaConfig>,
        unit: &U,
    )
        requires
            unit_ready(unit),
        ensures
            final(self).status == verdict(criteria@, old(self).metrics, unit),
            final(self).criteria_results@ == results_after(
                criteria@,
                old(self).metrics,
                unit,
                old(self).criteria_results@,
            ),
            criteria@.len() == 0 ==> final(self).status == ReportStatus::Passed
                && final(self).criteria_results@ == old(self).criteria_results@,
            final(self).metrics == old(self).metrics,
            final(self).total_steps == old(self).total_steps,
            final(self).total_time == old(self).total_time,
            final(self).experiment_name == old(self).experiment_name,
            final(self).baseline_comparison == old(self).baseline_comparison,
            final(self).error == old(self).error,
    {
        let ghost before = self.criteria_results@;
        let ghost metrics = self.metrics;
        let mut all_passed = true;
        let mut i: usize = 0;
        assert(criteria@.take(0) =~= Seq::empty());
        while i < criteria.len()
            invariant
                unit_ready(unit),
                i <= criteria@.len(),
                self.metrics == metrics,
                self.total_steps == old(self).total_steps,
                self.total_time == old(self).total_time,
                self.experiment_name == old(self).experiment_name,
                self.baseline_comparison == old(self).baseline_comparison,
                self.error == old(self).error,
                self.criteria_results@ == results_after(
                    criteria@.take(i as int),
                    metrics,
                    unit,
                    before,
                ),
                all_passed == all_accepted(criteria@.take(i as int), metrics, unit),
            decreases criteria@.len() - i,
        {
            let entry = criteria.entry(i);
            let ghost shorter = criteria@.take(i as int);
            let ghost longer = criteria@.take(i + 1);
            proof {
                assert(longer.drop_last() =~= shorter);
                assert(longer.last() == criteria@[i as int]);
                assert forall|j: int| 0 <= j < i implies #[trigger] longer[j] == shorter[j] by {}
            }
            match lookup_metric(&self.metrics, &entry.name, unit) {
                Some(value) => {
                    let passed = entry.value.evaluate(value, unit);
                    if !passed {
                        all_passed = false;
                    }
                    self.criteria_results.insert(
                        entry.name.clone(),
                        CriterionResult {
                            value,
                            min: entry.value.min,
                            max: entry.value.max,
                            passed,
                        },
                    );
                    proof {
                        if all_accepted(longer, metrics, unit) {
                            assert forall|j: int| 0 <= j < shorter.len() implies (metric_value(
                                metrics,
                                (#[trigger] shorter[j]).0,
                                unit,
                            ) matches Some(v) ==> shorter[j].1.accepts(v, unit)) by {
                                assert(longer[j] == shorter[j]);
                            }
                            assert(longer[i as int] == criteria@[i as int]);
                        }
                    }
                },
                None => {
                    proof {
                        if all_accepted(longer, metrics, unit) {
                            assert forall|j: int| 0 <= j < shorter.len() implies (metric_value(
                                metrics,
                                (#[trigger] shorter[j]).0,
                                unit,
                            ) matches Some(v) ==> shorter[j].1.accepts(v, unit)) by {
                                assert(longer[j] == shorter[j]);
                            }
                        }
                    }
                },
            }
            i = i + 1;
        }
        assert(criteria@.take(i as int) =~= criteria@);
        self.status = if all_passed {
            ReportStatus::Passed
        } else {
            ReportStatus::Failed
        };
    }

    /// Compares the metrics of the report with those of `baseline` and
    /// records what improved, what regressed and what to do about it.
    pub fn compare_baseline(&mut self, baseline: &SimulationReport)
        ensures
            final(self).baseline_comparison matches Some(c) && c.baseline_name@
                == baseline.experiment_name@ && texts(c.metrics_improved@) == improved(
                old(self).metrics,
                baseline.metrics,
            ) && texts(c.metrics_regressed@) == regressed(old(self).metrics, baseline.metrics)
                && c.recommendation == recommendation(
                improved(old(self).metrics, baseline.metrics),
                regressed(old(self).metrics, baseline.metrics),
            ),
            final(self).status == old(self).status,
            final(self).experiment_name == old(self).experiment_name,
            final(self).total_steps == old(self).total_steps,
            final(self).total_time == old(self).total_time,
            final(self).metrics == old(self).metrics,
            final(self).criteria_results == old(self).criteria_results,
            final(self).error == old(self).error,
    {
        let mut metrics_improved: Vec<String> = Vec::new();
        let mut metrics_regressed: Vec<String> = Vec::new();
        let ours = self.metrics;
        let theirs = baseline.metrics;
        assert(texts(metrics_improved@) =~= Seq::<Seq<char>>::empty());
        assert(texts(metrics_regressed@) =~= Seq::<Seq<char>>::empty());

        let ghost i0 = listed_if(
            ours.energy_drift_percent.absolute().below(theirs.energy_drift_percent.absolute()),
            "energy_drift"@,
        );
        let ghost r0 = listed_if(
            theirs.energy_drift_percent.absolute().below(ours.energy_drift_percent.absolute()),
            "energy_drift"@,
        );
        let ghost i1 = i0 + listed_if(
            ours.max_penetration_ever.below(theirs.max_penetration_ever),
            "max_penetration"@,
        );
        let ghost r1 = r0 + listed_if(
            theirs.max_penetration_ever.below(ours.max_penetration_ever),
            "max_penetration"@,
        );
        let ghost i2 = i1 + listed_if(
            ours.total_constraint_violations < theirs.total_constraint_violations,
            "constraint_violations"@,
        );
        let ghost r2 = r1 + listed_if(
            ours.total_constraint_violations > theirs.total_constraint_violations,
            "constraint_violations"@,
        );

        if ours.energy_drift_percent.abs().lt(theirs.energy_drift_percent.abs()) {
            metrics_improved.push(String::from_str("energy_drift"));
        } else if ours.energy_drift_percent.abs().gt(theirs.energy_drift_percent.abs()) {
            metrics_regressed.push(String::from_str("energy_drift"));
        }
        assert(texts(metrics_improved@) =~= i0);
        assert(texts(metrics_regressed@) =~= r0);

        if ours.max_penetration_ever.lt(theirs.max_penetration_ever) {
            metrics_improved.push(String::from_str("max_penetration"));
        } else if ours.max_penetration_ever.gt(theirs.max_penetration_ever) {
            metrics_regressed.push(String::from_str("max_penetration"));
        }
        assert(texts(metrics_improved@) =~= i1);
        assert(texts(metrics_regressed@) =~= r1);

        if ours.total_constraint_violations < theirs.total_constraint_violations {
            metrics_improved.push(String::from_str("constraint_violations"));
        } else if ours.total_constraint_violations > theirs.total_constraint_violations {
            metrics_regressed.push(String::from_str("constraint_violations"));
        }
        assert(texts(metrics_improved@) =~= i2);
        assert(texts(metrics_regressed@) =~= r2);

        let recommendation = if metrics_regressed.is_empty() && !metrics_improved.is_empty() {
            ComparisonRecommendation::Accept
        } else if !metrics_regressed.is_empty() && metrics_improved.is_empty() {
            ComparisonRecommendation::Reject
        } else {
            ComparisonRecommendation::Review
        };

        self.baseline_comparison = Some(
            BaselineComparison {
                baseline_name: baseline.experiment_name.clone(),
                metrics_improved,
                metrics_regressed,
                recommendation,
            },
        );
    }
}

/// What stands under `name` once distinct criteria were held against the
/// metrics: the outcome of the criterion of that name, where there is one
/// and it names a metric, and what stood there before otherwise.
pub proof fn lemma_result_of<U: Fn(Operation, u64, u64) -> u64>(
    criteria: Seq<(Seq<char>, CriteriaConfig)>,
    metrics: AggregateMetrics,
    unit: &U,
    before: Seq<(Seq<char>, CriterionResult)>,
    name: Seq<char>,
)
    requires
        distinct_names(criteria),
    ensures
        lookup(results_after(criteria, metrics, unit, before), name) == if has_name(criteria, name)
            && metric_value(metrics, name, unit).is_some() {
            Some(
                outcome(
                    criteria[first_index(criteria, name)].1,
                    metric_value(metrics, name, unit).unwrap(),
                    unit,
                ),
            )
        } else {
            lookup(before, name)
        },
    decreases criteria.len(),
{
    if criteria.len() > 0 {
        let shorter = criteria.drop_last();
        let last = (criteria.len() - 1) as int;
        let earlier = results_after(shorter, metrics, unit, before);
        assert forall|i: int, j: int| 0 <= i < j < shorter.len() implies (#[trigger] shorter[i]).0
            != (#[trigger] shorter[j]).0 by {
            assert(shorter[i] == criteria[i] && shorter[j] == criteria[j]);
        }
        lemma_result_of(shorter, metrics, unit, before, name);
        let (last_name, config) = criteria.last();
        if let Some(value) = metric_value(metrics, last_name, unit) {
            lemma_lookup_upsert(earlier, last_name, outcome(config, value, unit), name);
        }
        if has_name(criteria, name) {
            lemma_first_index(criteria, name);
            let f = first_index(criteria, name);
            if f < last {
                assert(shorter[f] == criteria[f]);
                assert(has_name(shorter, name));
                lemma_first_index(shorter, name);
                assert forall|j: int| 0 <= j < f implies (#[trigger] shorter[j]).0 != name by {
                    assert(shorter[j] == criteria[j]);
                }
                assert(first_index(shorter, name) == f);
                assert(criteria[f].0 != criteria[last].0);
            } else {
                assert(last_name == name);
                if has_name(shorter, name) {
                    let k = choose|k: int| 0 <= k < shorter.len() && (#[trigger] shorter[k]).0 == name;
                    assert(shorter[k] == criteria[k]);
                    assert(criteria[k].0 != criteria[last].0);
                }
            }
        } else {
            if has_name(shorter, name) {
                let k = choose|k: int| 0 <= k < shorter.len() && (#[trigger] shorter[k]).0 == name;
                assert(shorter[k] == criteria[k]);
            }
            assert(criteria[last].0 != name);
        }
    }
}

/// A report held against no criteria passes, and what results it held
/// stay as they were.
pub proof fn lemma_no_criteria_pass<U: Fn(Operation, u64, u64) -> u64>(
    metrics: AggregateMetrics,
    unit: &U,
)
    ensures
        verdict(Seq::<(Seq<char>, CriteriaConfig)>::empty(), metrics, unit) == ReportStatus::Passed,
        forall|before: Seq<(Seq<char>, CriterionResult)>|
            results_after(Seq::<(Seq<char>, CriteriaConfig)>::empty(), metrics, unit, before)
                == before,
{
}

/// Nothing is listed as both improved and regressed; a comparison of equal
/// metrics lists nothing and asks for a review.
pub proof fn lemma_comparison(current: AggregateMetrics, baseline: AggregateMetrics)
    ensures
        improved(current, baseline).len() + regressed(current, baseline).len() <= 3,
        improved(current, current).len() == 0,
        regressed(current, current).len() == 0,
        recommendation(improved(current, current), regressed(current, current))
            == ComparisonRecommendation::Review,
{
}

} // verus!
