use simuforge::analysis::{
    detect_stability, energy_conservation_ratio, max_penetration_frame, running_average,
};
use simuforge::arith::Operation;
use simuforge::experiment::CriteriaConfig;
use simuforge::ieee::{Double, Single};
use simuforge::math::{Transform, Vec3};
use simuforge::metrics::{
    AggregateMetrics, BodyState, ContactMetrics, EnergyMetrics, MetricFrame, MomentumMetrics,
};
use simuforge::names::NameMap;
use simuforge::report::{ComparisonRecommendation, ReportStatus, SimulationReport};

fn unit(op: Operation, a: u64, b: u64) -> u64 {
    let x = f32::from_bits(a as u32);
    let y = f32::from_bits(b as u32);
    match op {
        Operation::Add => (x + y).to_bits() as u64,
        Operation::Subtract => (x - y).to_bits() as u64,
        Operation::Multiply => (x * y).to_bits() as u64,
        Operation::Divide => (x / y).to_bits() as u64,
        Operation::SquareRoot => x.sqrt().to_bits() as u64,
        Operation::Sine => x.sin().to_bits() as u64,
        Operation::Cosine => x.cos().to_bits() as u64,
        Operation::Widen => (x as f64).to_bits(),
        Operation::Narrow => (f64::from_bits(a) as f32).to_bits() as u64,
        Operation::DoubleSubtract => (f64::from_bits(a) - f64::from_bits(b)).to_bits(),
        Operation::CountToSingle => (a as f32).to_bits() as u64,
        Operation::CountToDouble => (a as f64).to_bits(),
        Operation::SingleToCount => x as u64,
    }
}

fn s(v: f32) -> Single {
    Single::from_bits(v.to_bits())
}

fn f(v: Single) -> f32 {
    f32::from_bits(v.to_bits())
}

fn d(v: f64) -> Double {
    Double::from_bits(v.to_bits())
}

fn g(v: Double) -> f64 {
    f64::from_bits(v.to_bits())
}

fn frame(step: u64, time: f32, kinetic: f32, potential: f32) -> MetricFrame {
    MetricFrame {
        step,
        time: s(time),
        energy: EnergyMetrics::new(s(kinetic), s(potential), &unit),
        momentum: MomentumMetrics::default(),
        contacts: ContactMetrics::default(),
        bodies: vec![],
    }
}

fn body(id: u64, speed: f32, spin: f32, sleeping: bool) -> BodyState {
    BodyState {
        id,
        name: format!("body_{}", id),
        transform: Transform::identity(),
        velocity: Vec3::new(s(speed), s(0.0), s(0.0)),
        angular_velocity: Vec3::new(s(0.0), s(spin), s(0.0)),
        sleeping,
    }
}

fn with_bodies(step: u64, bodies: Vec<BodyState>) -> MetricFrame {
    let mut f = frame(step, step as f32 * 0.5, 1.0, 0.0);
    f.bodies = bodies;
    f
}

fn with_contacts(step: u64, count: u32, max: f32, violations: u32) -> MetricFrame {
    let mut f = frame(step, 0.0, 1.0, 0.0);
    f.contacts = ContactMetrics {
        contact_count: count,
        max_penetration: s(max),
        total_penetration: s(max),
        constraint_violations: violations,
    };
    f
}

#[test]
fn test_energy_metrics() {
    let energy = EnergyMetrics::new(s(100.0), s(50.0), &unit);
    assert_eq!(f(energy.total), 150.0);
}

#[test]
fn test_aggregate_metrics() {
    let frames = vec![
        MetricFrame {
            step: 0,
            time: s(0.0),
            energy: EnergyMetrics::new(s(100.0), s(0.0), &unit),
            momentum: MomentumMetrics::default(),
            contacts: ContactMetrics::default(),
            bodies: vec![],
        },
        MetricFrame {
            step: 1,
            time: s(0.016),
            energy: EnergyMetrics::new(s(98.0), s(0.0), &unit),
            momentum: MomentumMetrics::default(),
            contacts: ContactMetrics { max_penetration: s(0.001), ..Default::default() },
            bodies: vec![],
        },
    ];

    let agg = AggregateMetrics::compute(&frames, &unit);
    assert!((g(agg.energy_drift_percent) - (-2.0)).abs() < 0.1);
    assert_eq!(f(agg.max_penetration_ever), 0.001);
}

#[test]
fn test_report_status() {
    let report = SimulationReport::new("test".to_string());
    assert_eq!(report.status, ReportStatus::Pending);
}

#[test]
fn test_baseline_comparison() {
    let mut current = SimulationReport::new("current".to_string());
    current.metrics.energy_drift_percent = d(-1.0);
    current.metrics.max_penetration_ever = s(0.001);

    let mut baseline = SimulationReport::new("baseline".to_string());
    baseline.metrics.energy_drift_percent = d(-3.0);
    baseline.metrics.max_penetration_ever = s(0.005);

    current.compare_baseline(&baseline);

    let comparison = current.baseline_comparison.as_ref().unwrap();
    assert!(comparison.metrics_improved.contains(&"energy_drift".to_string()));
    assert!(comparison.metrics_improved.contains(&"max_penetration".to_string()));
    assert_eq!(comparison.recommendation, ComparisonRecommendation::Accept);
}

#[test]
fn test_energy_conservation() {
    let frames = vec![
        MetricFrame {
            step: 0,
            time: s(0.0),
            energy: EnergyMetrics::new(s(100.0), s(0.0), &unit),
            momentum: Default::default(),
            contacts: Default::default(),
            bodies: vec![],
        },
        MetricFrame {
            step: 1,
            time: s(0.016),
            energy: EnergyMetrics::new(s(95.0), s(0.0), &unit),
            momentum: Default::default(),
            contacts: Default::default(),
            bodies: vec![],
        },
    ];

    let ratio = g(energy_conservation_ratio(&frames, &unit));
    assert!((ratio - 0.95).abs() < 0.01);
}

#[test]
fn the_energy_drift_is_the_change_in_percent_of_the_initial_energy() {
    let frames = vec![frame(0, 0.0, 100.0, 0.0), frame(1, 0.1, 30.0, 7.0), frame(2, 0.2, 98.0, 0.0)];
    let agg = AggregateMetrics::compute(&frames, &unit);
    assert_eq!(g(agg.energy_drift_percent), ((98.0f32 - 100.0) / 100.0 * 100.0) as f64);
    assert_eq!(f(agg.initial_energy), 100.0);
    assert_eq!(f(agg.final_energy), 98.0);
    assert_eq!(agg.frame_count, 3);

    let rising = vec![frame(0, 0.0, -4.0, 0.0), frame(1, 0.1, -5.0, 0.0)];
    assert_eq!(g(AggregateMetrics::compute(&rising, &unit).energy_drift_percent), 25.0);
}

#[test]
fn a_negligible_initial_energy_has_no_drift() {
    for initial in [0.0f32, 1e-6, -1e-6, 1e-7, -0.0] {
        let frames = vec![frame(0, 0.0, initial, 0.0), frame(1, 0.1, 50.0, 0.0)];
        let agg = AggregateMetrics::compute(&frames, &unit);
        assert_eq!(agg.energy_drift_percent, d(0.0), "{}", initial);
    }
    let above = vec![frame(0, 0.0, 1.1e-6, 0.0), frame(1, 0.1, 2.2e-6, 0.0)];
    let agg = AggregateMetrics::compute(&above, &unit);
    assert_eq!(g(agg.energy_drift_percent), ((2.2e-6f32 - 1.1e-6) / 1.1e-6 * 100.0) as f64);
}

#[test]
fn no_frames_give_the_zero_aggregate() {
    let agg = AggregateMetrics::compute(&[], &unit);
    assert_eq!(agg, AggregateMetrics::default());
    assert_eq!(agg.frame_count, 0);
    assert_eq!(agg.stabilization_step, None);
    assert_eq!(agg.stability_time, None);
    assert_eq!(agg.energy_drift_percent, d(0.0));
    assert_eq!(agg.average_contact_count, s(0.0));
}

#[test]
fn contacts_are_summed_averaged_and_their_peak_kept() {
    let frames = vec![
        with_contacts(0, 2, 0.001, 1),
        with_contacts(1, 5, 0.004, 0),
        with_contacts(2, 0, 0.002, 3),
        with_contacts(3, 4, f32::NAN, u32::MAX),
    ];
    let agg = AggregateMetrics::compute(&frames, &unit);
    assert_eq!(f(agg.max_penetration_ever), 0.004);
    assert_eq!(agg.total_constraint_violations, 4 + u32::MAX as u64);
    assert_eq!(f(agg.average_contact_count), 11.0 / 4.0);
    assert_eq!(agg.frame_count, 4);
}

#[test]
fn the_peak_penetration_is_never_below_zero() {
    let frames = vec![with_contacts(0, 1, -0.5, 0), with_contacts(1, 1, -0.25, 0)];
    let agg = AggregateMetrics::compute(&frames, &unit);
    assert_eq!(f(agg.max_penetration_ever), 0.0);
}

#[test]
fn frames_stabilize_at_the_first_settled_frame() {
    let frames = vec![
        with_bodies(10, vec![body(0, 1.0, 0.0, false), body(1, 0.0, 0.0, false)]),
        with_bodies(11, vec![body(0, 0.02, 0.0, false), body(1, 0.0, 0.0, true)]),
        with_bodies(12, vec![body(0, 0.009, 5.0, false), body(1, 3.0, 0.0, true)]),
        with_bodies(13, vec![body(0, 0.0, 0.0, false), body(1, 0.0, 0.0, false)]),
    ];
    let agg = AggregateMetrics::compute(&frames, &unit);
    assert_eq!(agg.stabilization_step, Some(12));
    assert_eq!(agg.stability_time.map(f), Some(6.0));
}

#[test]
fn frames_that_never_settle_do_not_stabilize() {
    let frames = vec![
        with_bodies(0, vec![body(0, 1.0, 0.0, false)]),
        with_bodies(1, vec![body(0, 0.01, 0.0, false)]),
        with_bodies(2, vec![body(0, f32::NAN, 0.0, false)]),
    ];
    let agg = AggregateMetrics::compute(&frames, &unit);
    assert_eq!(agg.stabilization_step, None);
    assert_eq!(agg.stability_time, None);
    assert_eq!(detect_stability(&frames, s(0.01), &unit), None);
}

#[test]
fn a_frame_without_bodies_is_settled() {
    let frames = vec![frame(7, 0.25, 1.0, 0.0), frame(8, 0.5, 1.0, 0.0)];
    let agg = AggregateMetrics::compute(&frames, &unit);
    assert_eq!(agg.stabilization_step, Some(7));
    assert_eq!(agg.stability_time.map(f), Some(0.25));
}

#[test]
fn the_stability_time_is_that_of_the_first_frame_with_the_step() {
    let mut early = frame(3, 0.1, 1.0, 0.0);
    early.bodies = vec![body(0, 2.0, 0.0, false)];
    let late = frame(3, 0.9, 1.0, 0.0);
    let agg = AggregateMetrics::compute(&[early, late], &unit);
    assert_eq!(agg.stabilization_step, Some(3));
    assert_eq!(agg.stability_time.map(f), Some(0.1));
}

#[test]
fn stability_detection_looks_at_the_spin_too() {
    let frames = vec![
        with_bodies(0, vec![body(0, 0.5, 0.0, false)]),
        with_bodies(1, vec![body(0, 0.001, 0.5, false)]),
        with_bodies(2, vec![body(0, 0.001, 0.001, false)]),
        with_bodies(3, vec![body(0, 0.0, 0.0, true)]),
    ];
    assert_eq!(detect_stability(&frames, s(0.01), &unit), Some(2));
    assert_eq!(detect_stability(&frames, s(1.0), &unit), Some(0));
    assert_eq!(detect_stability(&frames, s(0.0001), &unit), Some(3));
    assert_eq!(AggregateMetrics::compute(&frames, &unit).stabilization_step, Some(1));
    assert_eq!(detect_stability(&[], s(0.01), &unit), None);
}

#[test]
fn the_conservation_ratio_is_one_where_there_is_nothing_to_compare() {
    assert_eq!(g(energy_conservation_ratio(&[], &unit)), 1.0);
    assert_eq!(g(energy_conservation_ratio(&[frame(0, 0.0, 5.0, 0.0)], &unit)), 1.0);
    let tiny = vec![frame(0, 0.0, 1e-7, 0.0), frame(1, 0.0, 5.0, 0.0)];
    assert_eq!(g(energy_conservation_ratio(&tiny, &unit)), 1.0);
    let frames = vec![frame(0, 0.0, 8.0, 0.0), frame(1, 0.0, 2.0, 0.0)];
    assert_eq!(g(energy_conservation_ratio(&frames, &unit)), 0.25);
    let edge = vec![frame(0, 0.0, 1e-6, 0.0), frame(1, 0.0, 3e-6, 0.0)];
    assert_eq!(g(energy_conservation_ratio(&edge, &unit)), (3e-6f32 / 1e-6f32) as f64);
}

#[test]
fn the_frame_of_the_largest_penetration_is_the_last_of_its_kind() {
    assert!(max_penetration_frame(&[]).is_none());
    let frames = vec![
        with_contacts(0, 0, 0.001, 0),
        with_contacts(1, 0, 0.004, 0),
        with_contacts(2, 0, 0.002, 0),
        with_contacts(3, 0, 0.004, 0),
        with_contacts(4, 0, -1.0, 0),
    ];
    assert_eq!(max_penetration_frame(&frames).unwrap().step, 3);
    assert_eq!(max_penetration_frame(&frames[..1]).unwrap().step, 0);
    assert_eq!(max_penetration_frame(&frames[..3]).unwrap().step, 1);
    let nan = vec![with_contacts(9, 0, f32::NAN, 0)];
    assert_eq!(max_penetration_frame(&nan).unwrap().step, 9);
}

#[test]
fn a_running_average_is_the_mean_of_each_window() {
    let frames = vec![
        frame(0, 0.0, 1.0, 0.0),
        frame(1, 0.0, 2.0, 0.0),
        frame(2, 0.0, 6.0, 0.0),
        frame(3, 0.0, 10.0, 0.0),
    ];
    let kinetic = |f: &MetricFrame| f.energy.kinetic;
    let means: Vec<f32> = running_average(&frames, 2, &kinetic, &unit).into_iter().map(f).collect();
    assert_eq!(means, vec![1.5, 4.0, 8.0]);
    let whole: Vec<f32> = running_average(&frames, 4, &kinetic, &unit).into_iter().map(f).collect();
    assert_eq!(whole, vec![(1.0f32 + 2.0 + 6.0 + 10.0) / 4.0]);
    let single: Vec<f32> = running_average(&frames, 1, &kinetic, &unit).into_iter().map(f).collect();
    assert_eq!(single, vec![1.0, 2.0, 6.0, 10.0]);
    let short: Vec<f32> = running_average(&frames, 5, &kinetic, &unit).into_iter().map(f).collect();
    assert_eq!(short, vec![1.0, 2.0, 6.0, 10.0]);
    assert!(running_average(&[], 3, &kinetic, &unit).is_empty());
}

fn criteria(list: &[(&str, CriteriaConfig)]) -> NameMap<CriteriaConfig> {
    let mut map = NameMap::new();
    for (name, config) in list {
        map.insert(name.to_string(), *config);
    }
    map
}

fn bounds(min: Option<f64>, max: Option<f64>) -> CriteriaConfig {
    CriteriaConfig { min: min.map(d), max: max.map(d), equals: None, tolerance: None }
}

#[test]
fn a_report_without_criteria_passes() {
    let frames = vec![frame(0, 0.0, 100.0, 0.0), frame(1, 0.5, 1.0, 0.0)];
    let mut report = SimulationReport::new("plain".to_string());
    report.finalize(&frames, &NameMap::new(), &unit);
    assert_eq!(report.status, ReportStatus::Passed);
    assert!(report.criteria_results.is_empty());
    assert_eq!(report.total_steps, 1);
    assert_eq!(f(report.total_time), 0.5);
    assert_eq!(g(report.metrics.energy_drift_percent), -99.0);

    let mut empty = SimulationReport::new("empty".to_string());
    empty.finalize(&[], &NameMap::new(), &unit);
    assert_eq!(empty.status, ReportStatus::Passed);
    assert_eq!(empty.total_steps, 0);
    assert_eq!(empty.metrics, AggregateMetrics::default());
}

#[test]
fn criteria_are_held_against_the_metrics_they_name() {
    let frames = vec![
        with_contacts(0, 2, 0.001, 1),
        with_contacts(1, 4, 0.004, 2),
    ];
    let rules = criteria(&[
        ("energy_drift_percent", bounds(Some(-1.0), Some(1.0))),
        ("max_penetration_ever", bounds(None, Some(0.01))),
        ("total_constraint_violations", bounds(None, Some(3.0))),
        ("average_contact_count", bounds(Some(3.0), Some(3.0))),
        ("stabilization_step", bounds(None, Some(0.0))),
        ("no_such_metric", bounds(Some(1.0), Some(0.0))),
    ]);
    let mut report = SimulationReport::new("held".to_string());
    report.finalize(&frames, &rules, &unit);
    assert_eq!(report.status, ReportStatus::Passed);
    assert_eq!(report.criteria_results.len(), 5);
    assert!(!report.criteria_results.contains("no_such_metric"));

    let drift = report.criteria_results.get("energy_drift_percent").unwrap();
    assert_eq!((g(drift.value), drift.min.map(g), drift.max.map(g), drift.passed), (0.0, Some(-1.0), Some(1.0), true));
    let pen = report.criteria_results.get("max_penetration_ever").unwrap();
    assert_eq!((g(pen.value), pen.min, pen.max.map(g), pen.passed), (0.004f32 as f64, None, Some(0.01), true));
    let violations = report.criteria_results.get("total_constraint_violations").unwrap();
    assert_eq!(g(violations.value), 3.0);
    let average = report.criteria_results.get("average_contact_count").unwrap();
    assert_eq!(g(average.value), 3.0);
    let step = report.criteria_results.get("stabilization_step").unwrap();
    assert_eq!(g(step.value), 0.0);
}

#[test]
fn one_failed_criterion_fails_the_report() {
    let frames = vec![with_contacts(0, 2, 0.001, 1), with_contacts(1, 4, 0.004, 2)];
    let rules = criteria(&[
        ("max_penetration_ever", bounds(None, Some(0.003))),
        ("total_constraint_violations", bounds(None, Some(3.0))),
    ]);
    let mut report = SimulationReport::new("failing".to_string());
    report.finalize(&frames, &rules, &unit);
    assert_eq!(report.status, ReportStatus::Failed);
    assert!(!report.criteria_results.get("max_penetration_ever").unwrap().passed);
    assert!(report.criteria_results.get("total_constraint_violations").unwrap().passed);
}

#[test]
fn a_criterion_on_the_stabilization_step_is_skipped_where_nothing_stabilized() {
    let frames = vec![with_bodies(0, vec![body(0, 1.0, 0.0, false)])];
    let rules = criteria(&[("stabilization_step", bounds(Some(5.0), Some(1.0)))]);
    let mut report = SimulationReport::new("restless".to_string());
    report.finalize(&frames, &rules, &unit);
    assert_eq!(report.status, ReportStatus::Passed);
    assert!(report.criteria_results.is_empty());

    let settled = vec![with_bodies(4, vec![body(0, 0.0, 0.0, true)])];
    report.finalize(&settled, &rules, &unit);
    assert_eq!(report.status, ReportStatus::Failed);
    assert_eq!(g(report.criteria_results.get("stabilization_step").unwrap().value), 4.0);
}

#[test]
fn a_report_of_an_error_carries_the_reason() {
    let report = SimulationReport::with_error("broken".to_string(), "no such file".to_string());
    assert_eq!(report.status, ReportStatus::Error);
    assert_eq!(report.experiment_name, "broken");
    assert_eq!(report.error.as_deref(), Some("no such file"));
    assert_eq!(report.total_steps, 0);
    assert_eq!(report.metrics, AggregateMetrics::default());
    assert!(report.criteria_results.is_empty());
    assert!(report.baseline_comparison.is_none());
}

fn compared(current: (f64, f32, u64), baseline: (f64, f32, u64)) -> (Vec<String>, Vec<String>, ComparisonRecommendation, String) {
    let mut ours = SimulationReport::new("ours".to_string());
    ours.metrics.energy_drift_percent = d(current.0);
    ours.metrics.max_penetration_ever = s(current.1);
    ours.metrics.total_constraint_violations = current.2;
    let mut theirs = SimulationReport::new("theirs".to_string());
    theirs.metrics.energy_drift_percent = d(baseline.0);
    theirs.metrics.max_penetration_ever = s(baseline.1);
    theirs.metrics.total_constraint_violations = baseline.2;
    ours.compare_baseline(&theirs);
    let c = ours.baseline_comparison.unwrap();
    (c.metrics_improved, c.metrics_regressed, c.recommendation, c.baseline_name)
}

#[test]
fn a_comparison_lists_what_improved_and_what_regressed() {
    let (improved, regressed, recommendation, name) = compared((1.0, 0.001, 0), (3.0, 0.005, 0));
    assert_eq!(improved, vec!["energy_drift", "max_penetration"]);
    assert!(regressed.is_empty());
    assert_eq!(recommendation, ComparisonRecommendation::Accept);
    assert_eq!(name, "theirs");

    let (improved, regressed, recommendation, _) = compared((-4.0, 0.005, 9), (3.0, 0.005, 2));
    assert!(improved.is_empty());
    assert_eq!(regressed, vec!["energy_drift", "constraint_violations"]);
    assert_eq!(recommendation, ComparisonRecommendation::Reject);

    let (improved, regressed, recommendation, _) = compared((1.0, 0.009, 1), (-3.0, 0.005, 2));
    assert_eq!(improved, vec!["energy_drift", "constraint_violations"]);
    assert_eq!(regressed, vec!["max_penetration"]);
    assert_eq!(recommendation, ComparisonRecommendation::Review);
}

#[test]
fn equal_metrics_ask_for_a_review() {
    let (improved, regressed, recommendation, _) = compared((-2.0, 0.005, 2), (2.0, 0.005, 2));
    assert!(improved.is_empty());
    assert!(regressed.is_empty());
    assert_eq!(recommendation, ComparisonRecommendation::Review);

    let (improved, regressed, recommendation, _) = compared((f64::NAN, f32::NAN, 2), (2.0, 0.005, 2));
    assert!(improved.is_empty());
    assert!(regressed.is_empty());
    assert_eq!(recommendation, ComparisonRecommendation::Review);
}

fn written(metrics: &AggregateMetrics) -> String {
    let mut map = serde_json::Map::new();
    map.insert("energy_drift_percent".to_string(), serde_json::Value::from(g(metrics.energy_drift_percent)));
    map.insert("initial_energy".to_string(), serde_json::Value::from(f(metrics.initial_energy)));
    map.insert("final_energy".to_string(), serde_json::Value::from(f(metrics.final_energy)));
    map.insert("max_penetration_ever".to_string(), serde_json::Value::from(f(metrics.max_penetration_ever)));
    map.insert(
        "total_constraint_violations".to_string(),
        serde_json::Value::from(metrics.total_constraint_violations),
    );
    map.insert("stabilization_step".to_string(), serde_json::Value::from(metrics.stabilization_step));
    map.insert("stability_time".to_string(), serde_json::Value::from(metrics.stability_time.map(f)));
    map.insert("average_contact_count".to_string(), serde_json::Value::from(f(metrics.average_contact_count)));
    map.insert("frame_count".to_string(), serde_json::Value::from(metrics.frame_count));
    serde_json::to_string(&serde_json::Value::Object(map)).unwrap()
}

fn read(text: &str) -> AggregateMetrics {
    let value: serde_json::Value = serde_json::from_str(text).unwrap();
    let single = |key: &str| s(value[key].as_f64().unwrap() as f32);
    AggregateMetrics {
        energy_drift_percent: d(value["energy_drift_percent"].as_f64().unwrap()),
        initial_energy: single("initial_energy"),
        final_energy: single("final_energy"),
        max_penetration_ever: single("max_penetration_ever"),
        total_constraint_violations: value["total_constraint_violations"].as_u64().unwrap(),
        stabilization_step: value["stabilization_step"].as_u64(),
        stability_time: value["stability_time"].as_f64().map(|t| s(t as f32)),
        average_contact_count: single("average_contact_count"),
        frame_count: value["frame_count"].as_u64().unwrap(),
    }
}

#[test]
fn metrics_written_as_json_read_back_the_same() {
    let mut frames = vec![
        with_contacts(0, 3, 0.001, 1),
        with_contacts(1, 4, 0.0049, u32::MAX),
        with_contacts(2, 4, 1e-30, 7),
    ];
    frames[0].energy = EnergyMetrics::new(s(1234.567), s(-0.333), &unit);
    frames[2].energy = EnergyMetrics::new(s(1199.01), s(1e-3), &unit);
    frames[0].bodies = vec![body(0, 1.0, 0.0, false)];
    frames[1].time = s(0.1);
    let metrics = AggregateMetrics::compute(&frames, &unit);
    assert_eq!(metrics.stabilization_step, Some(1));
    assert_eq!(read(&written(&metrics)), metrics);

    let none = AggregateMetrics::compute(&frames[..1], &unit);
    assert_eq!(none.stabilization_step, None);
    assert_eq!(read(&written(&none)), none);
    assert_eq!(read(&written(&AggregateMetrics::default())), AggregateMetrics::default());
}
