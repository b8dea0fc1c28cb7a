//! Collector and reshaper for repeated web-performance audit runs: the run
//! loop's verifiable pieces, and the aggregation of the per-run result
//! documents into one index-aligned metric report.

use vstd::prelude::*;

pub mod errors;
pub mod json;
pub mod laws;
pub mod metrics;
pub mod output;
pub mod report;
pub mod runner;
pub mod timefmt;

pub use errors::GroupieError;
pub use output::create_result_aggregate;
pub use output::Json;
pub use report::AggregateReport;

verus! {

/// A single sampled metric value: the bit pattern of the sampled number,
/// or `None` where the audit field was absent or not numeric.
pub type MetricSample = Option<u64>;

} // verus!
