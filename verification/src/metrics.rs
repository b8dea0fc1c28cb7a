//! Extraction of the fixed metric set from one parsed result document.
//!
//! Every metric is looked up along a fixed path. An absent or non-numeric
//! field degrades to an absent sample; the byte-weight item list alone is a
//! structural requirement, so a present but non-array list is a schema
//! violation rather than an absent sample.

use vstd::prelude::*;

use crate::json::{
    get_array_len, get_key, j_get4, json_model, json_of, lookup_num, num_at, JNode,
};
use crate::MetricSample;

verus! {

/// The twelve values extracted from a single run's result document.
#[derive(Clone, Debug)]
pub struct ResultMetrics {
    pub first_contentful_paint: MetricSample,
    pub first_meaningful_paint: MetricSample,
    pub total_blocking_time: MetricSample,
    pub time_to_interactive: MetricSample,
    pub server_response_time: MetricSample,
    pub bootup_time: MetricSample,
    pub round_trip_time: MetricSample,
    pub total_byte_weight: MetricSample,
    pub total_file_count: Option<usize>,
    pub performance: MetricSample,
    pub seo: MetricSample,
    pub best_practices: MetricSample,
}

/// The numeric value of one audit: `audits.<id>.numericValue`.
pub open spec fn audit_num(j: JNode, id: Seq<char>) -> MetricSample {
    num_at(j, "audits"@, id, "numericValue"@)
}

/// The score of one category: `categories.<id>.score`.
pub open spec fn category_score(j: JNode, id: Seq<char>) -> MetricSample {
    num_at(j, "categories"@, id, "score"@)
}

/// The node at `audits.total-byte-weight.details.items`, if any.
pub open spec fn byte_weight_items(j: JNode) -> Option<JNode> {
    j_get4(j, "audits"@, "total-byte-weight"@, "details"@, "items"@)
}

/// The byte-weight item list is allowed to be absent, but where it is
/// present it must be an array.
pub open spec fn file_count_ok(j: JNode) -> bool {
    match byte_weight_items(j) {
        Some(n) => n is Arr,
        None => true,
    }
}

/// The number of byte-weight detail items, or `None` where the list is
/// absent.
pub open spec fn file_count_of(j: JNode) -> Option<usize> {
    match byte_weight_items(j) {
        Some(JNode::Arr(s)) => Some(s.len() as usize),
        _ => None,
    }
}

/// Every metric the aggregator extracts from one result document.
pub open spec fn metrics_of(j: JNode) -> ResultMetrics {
    ResultMetrics {
        first_contentful_paint: audit_num(j, "first-contentful-paint"@),
        first_meaningful_paint: audit_num(j, "first-meaningful-paint"@),
        total_blocking_time: audit_num(j, "total-blocking-time"@),
        time_to_interactive: audit_num(j, "interactive"@),
        server_response_time: audit_num(j, "server-response-time"@),
        bootup_time: audit_num(j, "bootup-time"@),
        round_trip_time: audit_num(j, "network-rtt"@),
        total_byte_weight: audit_num(j, "total-byte-weight"@),
        total_file_count: file_count_of(j),
        performance: category_score(j, "performance"@),
        seo: category_score(j, "seo"@),
        best_practices: category_score(j, "best-practices"@),
    }
}

/// A text is a usable result file when it parses and meets the one
/// structural requirement.
pub open spec fn file_parses(t: Seq<char>) -> bool {
    json_of(t) is Some
}

pub open spec fn file_schema_ok(t: Seq<char>) -> bool {
    json_of(t) matches Some(j) ==> file_count_ok(j)
}

pub open spec fn file_ok(t: Seq<char>) -> bool {
    file_parses(t) && file_schema_ok(t)
}

/// The metrics a well-formed result text yields.
pub open spec fn file_metrics(t: Seq<char>) -> ResultMetrics {
    match json_of(t) {
        Some(j) => metrics_of(j),
        None => metrics_of(JNode::Null),
    }
}

fn lookup_items<'a>(v: &'a serde_json::Value) -> (r: Option<&'a serde_json::Value>)
    ensures
        r matches Some(u) ==> byte_weight_items(json_model(*v)) == Some(json_model(*u)),
        r is None ==> byte_weight_items(json_model(*v)) is None,
{
    match get_key(v, "audits") {
        Some(a) => match get_key(a, "total-byte-weight") {
            Some(b) => match get_key(b, "details") {
                Some(c) => get_key(c, "items"),
                None => None,
            },
            None => None,
        },
        None => None,
    }
}

/// Extracts the full metric set from one parsed document; `None` where the
/// byte-weight item list is present but not an array.
pub fn extract_metrics(v: &serde_json::Value) -> (r: Option<ResultMetrics>)
    ensures
        r is Some <==> file_count_ok(json_model(*v)),
        r matches Some(m) ==> m == metrics_of(json_model(*v)),
{
    let total_file_count: Option<usize> = match lookup_items(v) {
        Some(items) => match get_array_len(items) {
            Some(n) => Some(n),
            None => {
                return None;
            },
        },
        None => None,
    };
    Some(
        ResultMetrics {
            first_contentful_paint: lookup_num(v, "audits", "first-contentful-paint", "numericValue"),
            first_meaningful_paint: lookup_num(v, "audits", "first-meaningful-paint", "numericValue"),
            total_blocking_time: lookup_num(v, "audits", "total-blocking-time", "numericValue"),
            time_to_interactive: lookup_num(v, "audits", "interactive", "numericValue"),
            server_response_time: lookup_num(v, "audits", "server-response-time", "numericValue"),
            bootup_time: lookup_num(v, "audits", "bootup-time", "numericValue"),
            round_trip_time: lookup_num(v, "audits", "network-rtt", "numericValue"),
            total_byte_weight: lookup_num(v, "audits", "total-byte-weight", "numericValue"),
            total_file_count,
            performance: lookup_num(v, "categories", "performance", "score"),
            seo: lookup_num(v, "categories", "seo", "score"),
            best_practices: lookup_num(v, "categories", "best-practices", "score"),
        },
    )
}

} // verus!
