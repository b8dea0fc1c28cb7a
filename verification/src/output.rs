//! The aggregate document the library emits: an owned JSON value whose
//! numbers carry 64-bit float bit patterns, rendered from an
//! `AggregateReport` with a fixed key set per output mode.

use vstd::prelude::*;
use vstd::string::StringExecFns;

use crate::errors::GroupieError;
use crate::report::{aggregate_failure, aggregate_metrics, aggregate_ok, all_files_ok, AggregateReport};
use crate::MetricSample;

verus! {

/// A JSON value the library writes out. `Num` holds the bit pattern of a
/// 64-bit float; `Uint` holds an exact count.
#[derive(Debug)]
pub enum Json {
    Null,
    Num(u64),
    Uint(u64),
    Text(String),
    Array(Vec<Json>),
    Object(Vec<(String, Json)>),
}

/// The key/value pairs of an object, in insertion order.
pub open spec fn obj_pairs(j: Json) -> Seq<(String, Json)> {
    match j {
        Json::Object(v) => v@,
        _ => Seq::empty(),
    }
}

/// The keys of an object, in insertion order.
pub open spec fn obj_keys(j: Json) -> Seq<Seq<char>> {
    obj_pairs(j).map_values(|p: (String, Json)| p.0@)
}

pub open spec fn sample_json(o: MetricSample) -> Json {
    match o {
        Some(b) => Json::Num(b),
        None => Json::Null,
    }
}

pub open spec fn count_json(o: Option<usize>) -> Json {
    match o {
        Some(n) => Json::Uint(n as u64),
        None => Json::Null,
    }
}

/// `j` is the array of one metric's samples, absent samples as nulls.
pub open spec fn is_sample_array(j: Json, s: Seq<MetricSample>) -> bool {
    &&& j matches Json::Array(v)
    &&& v@.len() == s.len()
    &&& forall|i: int| 0 <= i < s.len() ==> v@[i] == sample_json(#[trigger] s[i])
}

/// `j` is the array of the file-count samples, absent samples as nulls.
pub open spec fn is_count_array(j: Json, s: Seq<Option<usize>>) -> bool {
    &&& j matches Json::Array(v)
    &&& v@.len() == s.len()
    &&& forall|i: int| 0 <= i < s.len() ==> v@[i] == count_json(#[trigger] s[i])
}

pub open spec fn is_text(j: Json, s: Seq<char>) -> bool {
    j matches Json::Text(t) && t@ == s
}

/// The eight timing entries, starting at position `base`.
pub open spec fn timing_pairs_match(
    ps: Seq<(String, Json)>,
    rep: AggregateReport,
    base: int,
) -> bool {
    &&& ps[base].0@ == "firstContentfulPaint"@
    &&& is_sample_array(ps[base].1, rep.first_contentful_paint@)
    &&& ps[base + 1].0@ == "firstMeaningfulPaint"@
    &&& is_sample_array(ps[base + 1].1, rep.first_meaningful_paint@)
    &&& ps[base + 2].0@ == "totalBlockingTime"@
    &&& is_sample_array(ps[base + 2].1, rep.total_blocking_time@)
    &&& ps[base + 3].0@ == "timeToInteractive"@
    &&& is_sample_array(ps[base + 3].1, rep.time_to_interactive@)
    &&& ps[base + 4].0@ == "serverResponseTime"@
    &&& is_sample_array(ps[base + 4].1, rep.server_response_time@)
    &&& ps[base + 5].0@ == "bootupTime"@
    &&& is_sample_array(ps[base + 5].1, rep.bootup_time@)
    &&& ps[base + 6].0@ == "roundTripTime"@
    &&& is_sample_array(ps[base + 6].1, rep.round_trip_time@)
    &&& ps[base + 7].0@ == "totalByteWeight"@
    &&& is_sample_array(ps[base + 7].1, rep.total_byte_weight@)
}

/// `j` is the document that renders `rep`: in timings-only mode the
/// timestamp and the eight timing sequences; otherwise also the domain, the
/// file counts and the three category scores.
pub open spec fn rendered(j: Json, rep: AggregateReport) -> bool {
    &&& j is Object
    &&& ({
        let ps = obj_pairs(j);
        if rep.timings_only {
            &&& ps.len() == 9
            &&& ps[0].0@ == "timeStamp"@
            &&& is_text(ps[0].1, rep.time_stamp@)
            &&& timing_pairs_match(ps, rep, 1)
        } else {
            &&& ps.len() == 14
            &&& ps[0].0@ == "domain"@
            &&& is_text(ps[0].1, rep.domain@)
            &&& ps[1].0@ == "timeStamp"@
            &&& is_text(ps[1].1, rep.time_stamp@)
            &&& timing_pairs_match(ps, rep, 2)
            &&& ps[10].0@ == "totalFileCount"@
            &&& is_count_array(ps[10].1, rep.total_file_count@)
            &&& ps[11].0@ == "performance"@
            &&& is_sample_array(ps[11].1, rep.performance@)
            &&& ps[12].0@ == "seo"@
            &&& is_sample_array(ps[12].1, rep.seo@)
            &&& ps[13].0@ == "bestPractices"@
            &&& is_sample_array(ps[13].1, rep.best_practices@)
        }
    })
}

fn sample_array(col: &Vec<MetricSample>) -> (r: Json)
    ensures
        is_sample_array(r, col@),
{
    let mut v: Vec<Json> = Vec::new();
    let mut i: usize = 0;
    while i < col.len()
        invariant
            i <= col@.len(),
            v@.len() == i,
            forall|k: int| 0 <= k < i ==> v@[k] == sample_json(#[trigger] col@[k]),
        decreases col@.len() - i,
    {
        let e = match col[i] {
            Some(b) => Json::Num(b),
            None => Json::Null,
        };
        v.push(e);
        i += 1;
    }
    Json::Array(v)
}

fn count_array(col: &Vec<Option<usize>>) -> (r: Json)
    ensures
        is_count_array(r, col@),
{
    let mut v: Vec<Json> = Vec::new();
    let mut i: usize = 0;
    while i < col.len()
        invariant
            i <= col@.len(),
            v@.len() == i,
            forall|k: int| 0 <= k < i ==> v@[k] == count_json(#[trigger] col@[k]),
        decreases col@.len() - i,
    {
        let e = match col[i] {
            Some(n) => Json::Uint(n as u64),
            None => Json::Null,
        };
        v.push(e);
        i += 1;
    }
    Json::Array(v)
}

/// Renders a report as the aggregate document, with the fixed key set of
/// its output mode, in a fixed order.
pub fn render_report(rep: &AggregateReport) -> (r: Json)
    ensures
        rendered(r, *rep),
{
    let mut ps: Vec<(String, Json)> = Vec::new();
    if !rep.timings_only {
        ps.push((String::from_str("domain"), Json::Text(rep.domain.clone())));
    }
    ps.push((String::from_str("timeStamp"), Json::Text(rep.time_stamp.clone())));
    ps.push((String::from_str("firstContentfulPaint"), sample_array(&rep.first_contentful_paint)));
    ps.push((String::from_str("firstMeaningfulPaint"), sample_array(&rep.first_meaningful_paint)));
    ps.push((String::from_str("totalBlockingTime"), sample_array(&rep.total_blocking_time)));
    ps.push((String::from_str("timeToInteractive"), sample_array(&rep.time_to_interactive)));
    ps.push((String::from_str("serverResponseTime"), sample_array(&rep.server_response_time)));
    ps.push((String::from_str("bootupTime"), sample_array(&rep.bootup_time)));
    ps.push((String::from_str("roundTripTime"), sample_array(&rep.round_trip_time)));
    ps.push((String::from_str("totalByteWeight"), sample_array(&rep.total_byte_weight)));
    if !rep.timings_only {
        ps.push((String::from_str("totalFileCount"), count_array(&rep.total_file_count)));
        ps.push((String::from_str("performance"), sample_array(&rep.performance)));
        ps.push((String::from_str("seo"), sample_array(&rep.seo)));
        ps.push((String::from_str("bestPractices"), sample_array(&rep.best_practices)));
    }
    Json::Object(ps)
}

/// Parses every result text, in input order, and renders the aggregate
/// document. All-or-nothing: the first bad text fails the call, with its
/// index and failure kind.
pub fn create_result_aggregate(domain: &str, result_contents: Vec<String>, timings_only: bool) -> (r:
    Result<Json, GroupieError>)
    ensures
        r is Ok <==> all_files_ok(result_contents.deep_view()),
        r matches Ok(j) ==> (exists|rep: AggregateReport|
            aggregate_ok(rep, domain@, result_contents.deep_view(), timings_only) && #[trigger] rendered(
                j,
                rep,
            )),
        r matches Err(e) ==> aggregate_failure(e, result_contents.deep_view()),
{
    let rep = match aggregate_metrics(domain, &result_contents, timings_only) {
        Ok(rep) => rep,
        Err(e) => {
            return Err(e);
        },
    };
    let j = render_report(&rep);
    proof {
        assert(aggregate_ok(rep, domain@, result_contents.deep_view(), timings_only) && rendered(
            j,
            rep,
        ));
    }
    Ok(j)
}

/// In timings-only mode the document holds exactly the timestamp key and
/// the eight timing keys, and omits the domain, file-count and score keys.
pub proof fn lemma_timings_only_keys(j: Json, rep: AggregateReport)
    requires
        rep.timings_only,
        rendered(j, rep),
    ensures
        obj_keys(j) =~= seq![
            "timeStamp"@,
            "firstContentfulPaint"@,
            "firstMeaningfulPaint"@,
            "totalBlockingTime"@,
            "timeToInteractive"@,
            "serverResponseTime"@,
            "bootupTime"@,
            "roundTripTime"@,
            "totalByteWeight"@,
        ],
        !obj_keys(j).contains("domain"@),
        !obj_keys(j).contains("totalFileCount"@),
        !obj_keys(j).contains("performance"@),
        !obj_keys(j).contains("seo"@),
        !obj_keys(j).contains("bestPractices"@),
{
    reveal_strlit("timeStamp");
    reveal_strlit("firstContentfulPaint");
    reveal_strlit("firstMeaningfulPaint");
    reveal_strlit("totalBlockingTime");
    reveal_strlit("timeToInteractive");
    reveal_strlit("serverResponseTime");
    reveal_strlit("bootupTime");
    reveal_strlit("roundTripTime");
    reveal_strlit("totalByteWeight");
    reveal_strlit("domain");
    reveal_strlit("totalFileCount");
    reveal_strlit("performance");
    reveal_strlit("seo");
    reveal_strlit("bestPractices");
    let ks = obj_keys(j);
    assert(ks.len() == 9);
    assert(ks =~= seq![
        "timeStamp"@,
        "firstContentfulPaint"@,
        "firstMeaningfulPaint"@,
        "totalBlockingTime"@,
        "timeToInteractive"@,
        "serverResponseTime"@,
        "bootupTime"@,
        "roundTripTime"@,
        "totalByteWeight"@,
    ]);
    assert("roundTripTime"@[0] != "bestPractices"@[0]);
    assert forall|idx: int| 0 <= idx < ks.len() implies ks[idx] != "domain"@ by {
        assert(ks[idx].len() != "domain"@.len());
    }
    assert forall|idx: int| 0 <= idx < ks.len() implies ks[idx] != "totalFileCount"@ by {
        assert(ks[idx].len() != "totalFileCount"@.len());
    }
    assert forall|idx: int| 0 <= idx < ks.len() implies ks[idx] != "performance"@ by {
        assert(ks[idx].len() != "performance"@.len());
    }
    assert forall|idx: int| 0 <= idx < ks.len() implies ks[idx] != "seo"@ by {
        assert(ks[idx].len() != "seo"@.len());
    }
    assert forall|idx: int| 0 <= idx < ks.len() implies ks[idx] != "bestPractices"@ by {
        if idx == 7 {
            assert(ks[idx][0] != "bestPractices"@[0]);
        } else {
            assert(ks[idx].len() != "bestPractices"@.len());
        }
    }
}

} // verus!
