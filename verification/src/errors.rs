//! The failure taxonomy: every way a batch of runs can fail, so that a
//! caller can tell a tool invocation failure from a parse or schema failure.

use vstd::prelude::*;

verus! {

/// Why a batch failed. The index names the run (and so the result file, in
/// input order) at which the batch gave up.
#[derive(Clone, Copy, Debug)]
pub enum GroupieError {
    /// The audit binary was missing or exited with a non-zero status.
    ExternalToolFailure,
    /// A result file could not be read.
    IoFailure { index: usize },
    /// A result file's content is not valid JSON.
    ParseFailure { index: usize },
    /// A structurally required field is present but of the wrong shape.
    SchemaViolation { index: usize },
}

impl GroupieError {
    /// A diagnostic line for the failure.
    pub fn describe(&self) -> (r: &'static str)
        ensures
            *self is ExternalToolFailure ==> r@ == "failed to run lighthouse, make sure it's installed and accessible in PATH"@,
            *self is IoFailure ==> r@ == "failed to read a run's result file"@,
            *self is ParseFailure ==> r@ == "a run's result file is not valid JSON"@,
            *self is SchemaViolation ==> r@ == "failed to parse byte weight file count"@,
    {
        match self {
            GroupieError::ExternalToolFailure => "failed to run lighthouse, make sure it's installed and accessible in PATH",
            GroupieError::IoFailure { .. } => "failed to read a run's result file",
            GroupieError::ParseFailure { .. } => "a run's result file is not valid JSON",
            GroupieError::SchemaViolation { .. } => "failed to parse byte weight file count",
        }
    }

    /// The run index the failure names, where it names one.
    pub fn run_index(&self) -> (r: Option<usize>)
        ensures
            *self matches GroupieError::IoFailure { index } ==> r == Some(index),
            *self matches GroupieError::ParseFailure { index } ==> r == Some(index),
            *self matches GroupieError::SchemaViolation { index } ==> r == Some(index),
            *self is ExternalToolFailure ==> r is None,
    {
        match self {
            GroupieError::ExternalToolFailure => None,
            GroupieError::IoFailure { index } => Some(*index),
            GroupieError::ParseFailure { index } => Some(*index),
            GroupieError::SchemaViolation { index } => Some(*index),
        }
    }
}

} // verus!
