//! Properties that relate whole aggregations to each other, proved from the
//! aggregation contract alone.

use vstd::prelude::*;

use crate::errors::GroupieError;
use crate::json::json_of;
use crate::metrics::{
    audit_num, byte_weight_items, category_score, file_count_ok, file_metrics, file_ok,
    file_parses, file_schema_ok,
};
use crate::json::JNode;
use crate::report::{aggregate_failure, aggregate_ok, all_files_ok, AggregateReport};

verus! {

/// Aggregating the same result texts twice yields the same metric
/// sequences, whatever the two reports' timestamps.
pub proof fn lemma_aggregate_round_trip(
    r1: AggregateReport,
    r2: AggregateReport,
    domain: Seq<char>,
    contents: Seq<Seq<char>>,
    timings_only: bool,
)
    requires
        aggregate_ok(r1, domain, contents, timings_only),
        aggregate_ok(r2, domain, contents, timings_only),
    ensures
        r1.first_contentful_paint@ == r2.first_contentful_paint@,
        r1.first_meaningful_paint@ == r2.first_meaningful_paint@,
        r1.total_blocking_time@ == r2.total_blocking_time@,
        r1.time_to_interactive@ == r2.time_to_interactive@,
        r1.server_response_time@ == r2.server_response_time@,
        r1.bootup_time@ == r2.bootup_time@,
        r1.round_trip_time@ == r2.round_trip_time@,
        r1.total_byte_weight@ == r2.total_byte_weight@,
        r1.total_file_count@ == r2.total_file_count@,
        r1.performance@ == r2.performance@,
        r1.seo@ == r2.seo@,
        r1.best_practices@ == r2.best_practices@,
        r1.domain@ == r2.domain@,
{
    assert forall|k: int| 0 <= k < contents.len() implies {
        &&& r1.first_contentful_paint@[k] == r2.first_contentful_paint@[k]
        &&& r1.first_meaningful_paint@[k] == r2.first_meaningful_paint@[k]
        &&& r1.total_blocking_time@[k] == r2.total_blocking_time@[k]
        &&& r1.time_to_interactive@[k] == r2.time_to_interactive@[k]
        &&& r1.server_response_time@[k] == r2.server_response_time@[k]
        &&& r1.bootup_time@[k] == r2.bootup_time@[k]
        &&& r1.round_trip_time@[k] == r2.round_trip_time@[k]
        &&& r1.total_byte_weight@[k] == r2.total_byte_weight@[k]
        &&& r1.total_file_count@[k] == r2.total_file_count@[k]
        &&& r1.performance@[k] == r2.performance@[k]
        &&& r1.seo@[k] == r2.seo@[k]
        &&& r1.best_practices@[k] == r2.best_practices@[k]
    } by {
        let m = file_metrics(contents[k]);
    }
    assert(r1.first_contentful_paint@ =~= r2.first_contentful_paint@);
    assert(r1.first_meaningful_paint@ =~= r2.first_meaningful_paint@);
    assert(r1.total_blocking_time@ =~= r2.total_blocking_time@);
    assert(r1.time_to_interactive@ =~= r2.time_to_interactive@);
    assert(r1.server_response_time@ =~= r2.server_response_time@);
    assert(r1.bootup_time@ =~= r2.bootup_time@);
    assert(r1.round_trip_time@ =~= r2.round_trip_time@);
    assert(r1.total_byte_weight@ =~= r2.total_byte_weight@);
    assert(r1.total_file_count@ =~= r2.total_file_count@);
    assert(r1.performance@ =~= r2.performance@);
    assert(r1.seo@ =~= r2.seo@);
    assert(r1.best_practices@ =~= r2.best_practices@);
}

/// Changing one result text touches no other index: two aggregations whose
/// inputs agree everywhere but at `i` agree at every other index of every
/// metric sequence.
pub proof fn lemma_other_indices_unaffected(
    r1: AggregateReport,
    r2: AggregateReport,
    domain: Seq<char>,
    c1: Seq<Seq<char>>,
    c2: Seq<Seq<char>>,
    timings_only: bool,
    i: int,
)
    requires
        aggregate_ok(r1, domain, c1, timings_only),
        aggregate_ok(r2, domain, c2, timings_only),
        c1.len() == c2.len(),
        forall|k: int| 0 <= k < c1.len() && k != i ==> c1[k] == c2[k],
    ensures
        forall|k: int|
            0 <= k < c1.len() && k != i ==> {
                &&& r1.first_contentful_paint@[k] == r2.first_contentful_paint@[k]
                &&& r1.first_meaningful_paint@[k] == r2.first_meaningful_paint@[k]
                &&& r1.total_blocking_time@[k] == r2.total_blocking_time@[k]
                &&& r1.time_to_interactive@[k] == r2.time_to_interactive@[k]
                &&& r1.server_response_time@[k] == r2.server_response_time@[k]
                &&& r1.bootup_time@[k] == r2.bootup_time@[k]
                &&& r1.round_trip_time@[k] == r2.round_trip_time@[k]
                &&& r1.total_byte_weight@[k] == r2.total_byte_weight@[k]
                &&& r1.total_file_count@[k] == r2.total_file_count@[k]
                &&& r1.performance@[k] == r2.performance@[k]
                &&& r1.seo@[k] == r2.seo@[k]
                &&& r1.best_practices@[k] == r2.best_practices@[k]
            },
{
    assert forall|k: int| 0 <= k < c1.len() && k != i implies {
        &&& r1.first_contentful_paint@[k] == r2.first_contentful_paint@[k]
        &&& r1.first_meaningful_paint@[k] == r2.first_meaningful_paint@[k]
        &&& r1.total_blocking_time@[k] == r2.total_blocking_time@[k]
        &&& r1.time_to_interactive@[k] == r2.time_to_interactive@[k]
        &&& r1.server_response_time@[k] == r2.server_response_time@[k]
        &&& r1.bootup_time@[k] == r2.bootup_time@[k]
        &&& r1.round_trip_time@[k] == r2.round_trip_time@[k]
        &&& r1.total_byte_weight@[k] == r2.total_byte_weight@[k]
        &&& r1.total_file_count@[k] == r2.total_file_count@[k]
        &&& r1.performance@[k] == r2.performance@[k]
        &&& r1.seo@[k] == r2.seo@[k]
        &&& r1.best_practices@[k] == r2.best_practices@[k]
    } by {
        assert(c1[k] == c2[k]);
        assert(file_metrics(c1[k]) == file_metrics(c2[k]));
    }
}

/// An audit field absent from the document of the i-th file appears as an
/// absent sample at index i of that metric's sequence.
pub proof fn lemma_absent_field_yields_null(
    rep: AggregateReport,
    domain: Seq<char>,
    contents: Seq<Seq<char>>,
    timings_only: bool,
    i: int,
    j: JNode,
)
    requires
        aggregate_ok(rep, domain, contents, timings_only),
        0 <= i < contents.len(),
        json_of(contents[i]) == Some(j),
    ensures
        audit_num(j, "first-contentful-paint"@) is None ==> rep.first_contentful_paint@[i] is None,
        audit_num(j, "first-meaningful-paint"@) is None ==> rep.first_meaningful_paint@[i] is None,
        audit_num(j, "total-blocking-time"@) is None ==> rep.total_blocking_time@[i] is None,
        audit_num(j, "interactive"@) is None ==> rep.time_to_interactive@[i] is None,
        audit_num(j, "server-response-time"@) is None ==> rep.server_response_time@[i] is None,
        audit_num(j, "bootup-time"@) is None ==> rep.bootup_time@[i] is None,
        audit_num(j, "network-rtt"@) is None ==> rep.round_trip_time@[i] is None,
        audit_num(j, "total-byte-weight"@) is None ==> rep.total_byte_weight@[i] is None,
        byte_weight_items(j) is None ==> rep.total_file_count@[i] is None,
        category_score(j, "performance"@) is None ==> rep.performance@[i] is None,
        category_score(j, "seo"@) is None ==> rep.seo@[i] is None,
        category_score(j, "best-practices"@) is None ==> rep.best_practices@[i] is None,
{
    assert(file_metrics(contents[i]) == crate::metrics::metrics_of(j));
}

/// A file whose byte-weight item list is present but not an array fails the
/// whole aggregation: no report is produced. Provided every file parses,
/// whatever failure comes back is a schema violation, at a file that breaks
/// the structural requirement. (With an unparseable file in the batch, the
/// first such file's parse failure wins instead.)
pub proof fn lemma_non_array_items_is_schema_violation(
    contents: Seq<Seq<char>>,
    i: int,
    j: JNode,
    e: GroupieError,
)
    requires
        0 <= i < contents.len(),
        forall|k: int| 0 <= k < contents.len() ==> file_parses(#[trigger] contents[k]),
        json_of(contents[i]) == Some(j),
        !file_count_ok(j),
    ensures
        !all_files_ok(contents),
        aggregate_failure(e, contents) ==> ({
            &&& e matches GroupieError::SchemaViolation { index }
            &&& 0 <= index < contents.len()
            &&& file_parses(contents[index as int])
            &&& !file_schema_ok(contents[index as int])
        }),
{
    assert(!file_schema_ok(contents[i]));
    assert(!file_ok(contents[i]));
    if aggregate_failure(e, contents) {
        match e {
            GroupieError::ParseFailure { index } => {
                assert(file_parses(contents[index as int]));
                assert(false);
            },
            _ => {},
        }
    }
}

/// An empty batch is well formed, so aggregating it is owed success rather
/// than an error.
pub proof fn lemma_empty_batch_is_ok()
    ensures
        all_files_ok(Seq::<Seq<char>>::empty()),
{
}

/// The report of an empty batch has every metric sequence empty.
pub proof fn lemma_empty_batch_report(
    rep: AggregateReport,
    domain: Seq<char>,
    timings_only: bool,
)
    requires
        aggregate_ok(rep, domain, Seq::<Seq<char>>::empty(), timings_only),
    ensures
        rep.first_contentful_paint@.len() == 0,
        rep.first_meaningful_paint@.len() == 0,
        rep.total_blocking_time@.len() == 0,
        rep.time_to_interactive@.len() == 0,
        rep.server_response_time@.len() == 0,
        rep.bootup_time@.len() == 0,
        rep.round_trip_time@.len() == 0,
        rep.total_byte_weight@.len() == 0,
        rep.total_file_count@.len() == 0,
        rep.performance@.len() == 0,
        rep.seo@.len() == 0,
        rep.best_practices@.len() == 0,
{
}

} // verus!
