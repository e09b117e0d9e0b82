//! Regression-testing harness for rigid-body simulations: experiment
//! descriptions and their validation, per-step metric frames, their
//! aggregation, acceptance criteria and baseline comparison.
//!
//! Measured quantities are IEEE 754 values held by their bit patterns
//! ([`ieee`]). Comparisons are decided on the patterns; every operation
//! that rounds is put to an arithmetic unit that the caller supplies
//! ([`arith`]), so that a contract says which operations a result is made
//! of, in which order, and leaves the rounding to the machine. The physics
//! engine stays outside as well: the stepping loop ([`world`]) is handed
//! what the engine shows and says what it is to do.

pub mod analysis;
pub mod arith;
pub mod body_builder;
pub mod error;
pub mod experiment;
pub mod ieee;
pub mod math;
pub mod metrics;
pub mod names;
pub mod report;
pub mod runner;
pub mod scenarios;
pub mod seqs;
pub mod session;
pub mod suite;
pub mod world;

pub use analysis::{
    detect_stability, energy_conservation_ratio, max_penetration_frame, running_average,
};
pub use body_builder::BodyBuilder;
pub use error::SimuForgeError;
pub use experiment::{
    CriteriaConfig, DurationConfig, ExperimentSpec, MetricsConfig, PhysicsConfig, ScenarioConfig,
};
pub use math::{Quat, Transform, Vec3};
pub use metrics::{AggregateMetrics, ContactMetrics, EnergyMetrics, MetricFrame, MomentumMetrics};
pub use report::{BaselineComparison, CriterionResult, ReportStatus, SimulationReport};
pub use scenarios::{create_scenario, Scenario};
pub use world::MetricWorld;
