//! The aggregate report: one ordered sample sequence per tracked metric,
//! index-aligned with the input result files, built all-or-nothing.

use vstd::prelude::*;
use vstd::string::StringExecFns;

use crate::errors::GroupieError;
use crate::json::parse_json;
use crate::metrics::{extract_metrics, file_metrics, file_ok, file_parses, file_schema_ok};
use crate::timefmt::{current_timestamp, is_timestamp};
use crate::MetricSample;

verus! {

/// The aggregate of a whole batch of runs. Every sequence has one entry per
/// input result file, at that file's input position.
#[derive(Debug)]
pub struct AggregateReport {
    pub time_stamp: String,
    pub domain: String,
    pub timings_only: bool,
    pub first_contentful_paint: Vec<MetricSample>,
    pub first_meaningful_paint: Vec<MetricSample>,
    pub total_blocking_time: Vec<MetricSample>,
    pub time_to_interactive: Vec<MetricSample>,
    pub server_response_time: Vec<MetricSample>,
    pub bootup_time: Vec<MetricSample>,
    pub round_trip_time: Vec<MetricSample>,
    pub total_byte_weight: Vec<MetricSample>,
    pub total_file_count: Vec<Option<usize>>,
    pub performance: Vec<MetricSample>,
    pub seo: Vec<MetricSample>,
    pub best_practices: Vec<MetricSample>,
}

/// Every metric sequence has one entry per input text, and the entry at
/// each index is the metric extracted from the text at that index.
pub open spec fn columns_match(rep: AggregateReport, contents: Seq<Seq<char>>) -> bool {
    &&& rep.first_contentful_paint@.len() == contents.len()
    &&& rep.first_meaningful_paint@.len() == contents.len()
    &&& rep.total_blocking_time@.len() == contents.len()
    &&& rep.time_to_interactive@.len() == contents.len()
    &&& rep.server_response_time@.len() == contents.len()
    &&& rep.bootup_time@.len() == contents.len()
    &&& rep.round_trip_time@.len() == contents.len()
    &&& rep.total_byte_weight@.len() == contents.len()
    &&& rep.total_file_count@.len() == contents.len()
    &&& rep.performance@.len() == contents.len()
    &&& rep.seo@.len() == contents.len()
    &&& rep.best_practices@.len() == contents.len()
    &&& forall|i: int|
        0 <= i < contents.len() ==> {
            let m = #[trigger] file_metrics(contents[i]);
            &&& rep.first_contentful_paint@[i] == m.first_contentful_paint
            &&& rep.first_meaningful_paint@[i] == m.first_meaningful_paint
            &&& rep.total_blocking_time@[i] == m.total_blocking_time
            &&& rep.time_to_interactive@[i] == m.time_to_interactive
            &&& rep.server_response_time@[i] == m.server_response_time
            &&& rep.bootup_time@[i] == m.bootup_time
            &&& rep.round_trip_time@[i] == m.round_trip_time
            &&& rep.total_byte_weight@[i] == m.total_byte_weight
            &&& rep.total_file_count@[i] == m.total_file_count
            &&& rep.performance@[i] == m.performance
            &&& rep.seo@[i] == m.seo
            &&& rep.best_practices@[i] == m.best_practices
        }
}

/// Every input text parses and meets the structural requirement.
pub open spec fn all_files_ok(contents: Seq<Seq<char>>) -> bool {
    forall|i: int| 0 <= i < contents.len() ==> file_ok(#[trigger] contents[i])
}

/// What a successful aggregation promises of its report.
pub open spec fn aggregate_ok(
    rep: AggregateReport,
    domain: Seq<char>,
    contents: Seq<Seq<char>>,
    timings_only: bool,
) -> bool {
    &&& rep.domain@ == domain
    &&& rep.timings_only == timings_only
    &&& is_timestamp(rep.time_stamp@)
    &&& all_files_ok(contents)
    &&& columns_match(rep, contents)
}

/// A failed aggregation names the first offending input and its kind.
pub open spec fn aggregate_failure(e: GroupieError, contents: Seq<Seq<char>>) -> bool {
    match e {
        GroupieError::ParseFailure { index } => {
            &&& 0 <= index < contents.len()
            &&& !file_parses(contents[index as int])
            &&& forall|k: int| 0 <= k < index ==> file_ok(#[trigger] contents[k])
        },
        GroupieError::SchemaViolation { index } => {
            &&& 0 <= index < contents.len()
            &&& file_parses(contents[index as int])
            &&& !file_schema_ok(contents[index as int])
            &&& forall|k: int| 0 <= k < index ==> file_ok(#[trigger] contents[k])
        },
        _ => false,
    }
}

/// Folds the result texts, in input order, into one aggregate report. The
/// batch is all-or-nothing: the first text that does not parse, or that
/// breaks the structural requirement, fails the whole call, with its index.
pub fn aggregate_metrics(domain: &str, result_contents: &Vec<String>, timings_only: bool) -> (r:
    Result<AggregateReport, GroupieError>)
    ensures
        r is Ok <==> all_files_ok(result_contents.deep_view()),
        r matches Ok(rep) ==> aggregate_ok(
            rep,
            domain@,
            result_contents.deep_view(),
            timings_only,
        ),
        r matches Err(e) ==> aggregate_failure(e, result_contents.deep_view()),
{
    let ghost contents = result_contents.deep_view();
    let mut fcp: Vec<MetricSample> = Vec::new();
    let mut fmp: Vec<MetricSample> = Vec::new();
    let mut tbt: Vec<MetricSample> = Vec::new();
    let mut tti: Vec<MetricSample> = Vec::new();
    let mut srt: Vec<MetricSample> = Vec::new();
    let mut but: Vec<MetricSample> = Vec::new();
    let mut rtt: Vec<MetricSample> = Vec::new();
    let mut tbw: Vec<MetricSample> = Vec::new();
    let mut tbc: Vec<Option<usize>> = Vec::new();
    let mut seo: Vec<MetricSample> = Vec::new();
    let mut per: Vec<MetricSample> = Vec::new();
    let mut bes: Vec<MetricSample> = Vec::new();

    let n = result_contents.len();
    let mut i: usize = 0;
    while i < n
        invariant
            n == contents.len(),
            contents == result_contents.deep_view(),
            i <= n,
            fcp@.len() == i,
            fmp@.len() == i,
            tbt@.len() == i,
            tti@.len() == i,
            srt@.len() == i,
            but@.len() == i,
            rtt@.len() == i,
            tbw@.len() == i,
            tbc@.len() == i,
            seo@.len() == i,
            per@.len() == i,
            bes@.len() == i,
            forall|k: int| 0 <= k < i ==> file_ok(#[trigger] contents[k]),
            forall|k: int|
                0 <= k < i ==> {
                    let m = #[trigger] file_metrics(contents[k]);
                    &&& fcp@[k] == m.first_contentful_paint
                    &&& fmp@[k] == m.first_meaningful_paint
                    &&& tbt@[k] == m.total_blocking_time
                    &&& tti@[k] == m.time_to_interactive
                    &&& srt@[k] == m.server_response_time
                    &&& but@[k] == m.bootup_time
                    &&& rtt@[k] == m.round_trip_time
                    &&& tbw@[k] == m.total_byte_weight
                    &&& tbc@[k] == m.total_file_count
                    &&& per@[k] == m.performance
                    &&& seo@[k] == m.seo
                    &&& bes@[k] == m.best_practices
                },
        decreases n - i,
    {
        let text: &String = &result_contents[i];
        proof {
            assert(contents[i as int] == result_contents@[i as int]@);
        }
        let parsed = match parse_json(text.as_str()) {
            Ok(v) => v,
            Err(_) => {
                return Err(GroupieError::ParseFailure { index: i });
            },
        };
        let m = match extract_metrics(&parsed) {
            Some(m) => m,
            None => {
                return Err(GroupieError::SchemaViolation { index: i });
            },
        };
        fcp.push(m.first_contentful_paint);
        fmp.push(m.first_meaningful_paint);
        tbt.push(m.total_blocking_time);
        tti.push(m.time_to_interactive);
        srt.push(m.server_response_time);
        but.push(m.bootup_time);
        rtt.push(m.round_trip_time);
        tbw.push(m.total_byte_weight);
        tbc.push(m.total_file_count);
        seo.push(m.seo);
        per.push(m.performance);
        bes.push(m.best_practices);
        i += 1;
    }

    Ok(
        AggregateReport {
            time_stamp: current_timestamp(),
            domain: String::from_str(domain),
            timings_only,
            first_contentful_paint: fcp,
            first_meaningful_paint: fmp,
            total_blocking_time: tbt,
            time_to_interactive: tti,
            server_response_time: srt,
            bootup_time: but,
            round_trip_time: rtt,
            total_byte_weight: tbw,
            total_file_count: tbc,
            performance: per,
            seo: seo,
            best_practices: bes,
        },
    )
}

} // verus!
