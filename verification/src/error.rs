//! What can go wrong with an experiment.

use vstd::prelude::*;
use vstd::string::StringExecFns;

verus! {

/// A failure, with the detail that goes with it.
#[derive(Clone, Debug)]
pub enum SimuForgeError {
    /// The description of the experiment breaks a rule.
    InvalidSpec(String),
    /// No built-in scenario has the name.
    ScenarioNotFound(String),
    /// The engine failed.
    Physics(String),
    /// A file could not be read or written.
    Io(String),
    /// A description could not be read as YAML.
    Yaml(String),
    /// A report could not be read or written as JSON.
    Json(String),
    /// A check of the result failed.
    Validation(String),
    /// The baseline does not belong to the experiment.
    BaselineMismatch(String),
}

impl SimuForgeError {
    /// What the kind of failure is called.
    pub open spec fn heading(&self) -> Seq<char> {
        match self {
            SimuForgeError::InvalidSpec(_) => "Invalid experiment specification: "@,
            SimuForgeError::ScenarioNotFound(_) => "Scenario not found: "@,
            SimuForgeError::Physics(_) => "Physics error: "@,
            SimuForgeError::Io(_) => "IO error: "@,
            SimuForgeError::Yaml(_) => "YAML parsing error: "@,
            SimuForgeError::Json(_) => "JSON parsing error: "@,
            SimuForgeError::Validation(_) => "Validation error: "@,
            SimuForgeError::BaselineMismatch(_) => "Baseline mismatch: "@,
        }
    }

    /// The detail that the failure carries.
    pub open spec fn detail(&self) -> Seq<char> {
        match self {
            SimuForgeError::InvalidSpec(d) => d@,
            SimuForgeError::ScenarioNotFound(d) => d@,
            SimuForgeError::Physics(d) => d@,
            SimuForgeError::Io(d) => d@,
            SimuForgeError::Yaml(d) => d@,
            SimuForgeError::Json(d) => d@,
            SimuForgeError::Validation(d) => d@,
            SimuForgeError::BaselineMismatch(d) => d@,
        }
    }

    /// The failure in words: its heading, then its detail.
    pub fn message(&self) -> (text: String)
        ensures
            text@ == self.heading() + self.detail(),
    {
        match self {
            SimuForgeError::InvalidSpec(d) => String::from_str(
                "Invalid experiment specification: ",
            ).concat(d.as_str()),
            SimuForgeError::ScenarioNotFound(d) => String::from_str("Scenario not found: ").concat(
                d.as_str(),
            ),
            SimuForgeError::Physics(d) => String::from_str("Physics error: ").concat(d.as_str()),
            SimuForgeError::Io(d) => String::from_str("IO error: ").concat(d.as_str()),
            SimuForgeError::Yaml(d) => String::from_str("YAML parsing error: ").concat(d.as_str()),
            SimuForgeError::Json(d) => String::from_str("JSON parsing error: ").concat(d.as_str()),
            SimuForgeError::Validation(d) => String::from_str("Validation error: ").concat(
                d.as_str(),
            ),
            SimuForgeError::BaselineMismatch(d) => String::from_str("Baseline mismatch: ").concat(
                d.as_str(),
            ),
        }
    }
}

} // verus!
