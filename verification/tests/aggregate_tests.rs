use lighthouse_groupie::create_result_aggregate;
use lighthouse_groupie::GroupieError;
use lighthouse_groupie::Json;

fn fixture_one() -> String {
    "{
      \"audits\": {
        \"first-contentful-paint\": {\"numericValue\": 1024.5},
        \"first-meaningful-paint\": {\"numericValue\": 1143},
        \"total-blocking-time\": {\"numericValue\": 12},
        \"interactive\": {\"numericValue\": 2200},
        \"server-response-time\": {\"numericValue\": 130},
        \"bootup-time\": {\"numericValue\": 70},
        \"network-rtt\": {\"numericValue\": 5},
        \"total-byte-weight\": {\"numericValue\": 400000, \"details\": {\"items\": [1, 2, 3]}}
      },
      \"categories\": {
        \"seo\": {\"score\": 0.9},
        \"performance\": {\"score\": 0.75},
        \"best-practices\": {\"score\": 1.0}
      }
    }"
    .to_string()
}

fn fixture_two() -> String {
    "{
      \"audits\": {
        \"first-contentful-paint\": {\"numericValue\": 2048.25},
        \"first-meaningful-paint\": {\"numericValue\": 1500},
        \"total-blocking-time\": {\"numericValue\": 40},
        \"interactive\": {\"numericValue\": 3000},
        \"server-response-time\": {\"numericValue\": 150},
        \"bootup-time\": {\"numericValue\": 95},
        \"network-rtt\": {\"numericValue\": 7},
        \"total-byte-weight\": {\"numericValue\": 500000, \"details\": {\"items\": [1]}}
      },
      \"categories\": {
        \"seo\": {\"score\": 0.8},
        \"performance\": {\"score\": 0.5},
        \"best-practices\": {\"score\": 0.7}
      }
    }"
    .to_string()
}

fn object_pairs(doc: &Json) -> &Vec<(String, Json)> {
    match doc {
        Json::Object(pairs) => pairs,
        _ => panic!("aggregate document is not an object"),
    }
}

fn field<'a>(doc: &'a Json, key: &str) -> &'a Json {
    for (k, v) in object_pairs(doc) {
        if k == key {
            return v;
        }
    }
    panic!("missing key {}", key);
}

fn num_array(doc: &Json, key: &str) -> Vec<Option<f64>> {
    match field(doc, key) {
        Json::Array(items) => items
            .iter()
            .map(|e| match e {
                Json::Num(bits) => Some(f64::from_bits(*bits)),
                Json::Null => None,
                _ => panic!("unexpected entry under {}", key),
            })
            .collect(),
        _ => panic!("{} is not an array", key),
    }
}

fn count_array(doc: &Json, key: &str) -> Vec<Option<u64>> {
    match field(doc, key) {
        Json::Array(items) => items
            .iter()
            .map(|e| match e {
                Json::Uint(n) => Some(*n),
                Json::Null => None,
                _ => panic!("unexpected entry under {}", key),
            })
            .collect(),
        _ => panic!("{} is not an array", key),
    }
}

fn keys(doc: &Json) -> Vec<String> {
    object_pairs(doc).iter().map(|p| p.0.clone()).collect()
}

#[test]
fn test_aggregator() {
    let test_result_files: Vec<String> = vec![fixture_one(), fixture_two()];
    let aggregate = create_result_aggregate("test", test_result_files, false).unwrap();

    let r = num_array(&aggregate, "bestPractices");
    assert_eq!(r.len(), 2);
    assert_eq!(r[0].unwrap() as i32, 1);

    let v = num_array(&aggregate, "bootupTime");
    assert_eq!(v[0].unwrap() as i32, 70);

    let v = num_array(&aggregate, "firstMeaningfulPaint");
    assert_eq!(v[0].unwrap() as i32, 1143);
}

#[test]
fn sequences_follow_input_order() {
    let doc = create_result_aggregate("example.com", vec![fixture_one(), fixture_two()], false)
        .unwrap();
    assert_eq!(
        num_array(&doc, "firstContentfulPaint"),
        vec![Some(1024.5), Some(2048.25)]
    );
    assert_eq!(num_array(&doc, "roundTripTime"), vec![Some(5.0), Some(7.0)]);
    assert_eq!(num_array(&doc, "serverResponseTime"), vec![Some(130.0), Some(150.0)]);
    assert_eq!(num_array(&doc, "timeToInteractive"), vec![Some(2200.0), Some(3000.0)]);
    assert_eq!(num_array(&doc, "totalBlockingTime"), vec![Some(12.0), Some(40.0)]);
    assert_eq!(num_array(&doc, "totalByteWeight"), vec![Some(400000.0), Some(500000.0)]);
    assert_eq!(num_array(&doc, "performance"), vec![Some(0.75), Some(0.5)]);
    assert_eq!(num_array(&doc, "seo"), vec![Some(0.9), Some(0.8)]);
    assert_eq!(count_array(&doc, "totalFileCount"), vec![Some(3), Some(1)]);
    for key in [
        "firstContentfulPaint",
        "firstMeaningfulPaint",
        "totalBlockingTime",
        "timeToInteractive",
        "serverResponseTime",
        "bootupTime",
        "roundTripTime",
        "totalByteWeight",
        "performance",
        "seo",
        "bestPractices",
    ] {
        assert_eq!(num_array(&doc, key).len(), 2);
    }
}

#[test]
fn absent_field_yields_null_at_its_index_only() {
    let no_bootup = "{\"audits\": {\"first-meaningful-paint\": {\"numericValue\": 9}}}".to_string();
    let doc =
        create_result_aggregate("example.com", vec![no_bootup, fixture_one()], false).unwrap();
    let bootup = num_array(&doc, "bootupTime");
    assert_eq!(bootup, vec![None, Some(70.0)]);
    let fmp = num_array(&doc, "firstMeaningfulPaint");
    assert_eq!(fmp, vec![Some(9.0), Some(1143.0)]);
    // A field of the wrong type degrades to an absent sample as well.
    let bad_type = "{\"audits\": {\"bootup-time\": {\"numericValue\": \"fast\"}}}".to_string();
    let doc = create_result_aggregate("example.com", vec![bad_type], false).unwrap();
    assert_eq!(num_array(&doc, "bootupTime"), vec![None]);
}

#[test]
fn timings_only_has_exactly_the_timing_keys() {
    let doc = create_result_aggregate("example.com", vec![fixture_one()], true).unwrap();
    assert_eq!(
        keys(&doc),
        vec![
            "timeStamp",
            "firstContentfulPaint",
            "firstMeaningfulPaint",
            "totalBlockingTime",
            "timeToInteractive",
            "serverResponseTime",
            "bootupTime",
            "roundTripTime",
            "totalByteWeight",
        ]
    );
}

#[test]
fn full_mode_has_all_keys() {
    let doc = create_result_aggregate("example.com", vec![fixture_one()], false).unwrap();
    assert_eq!(
        keys(&doc),
        vec![
            "domain",
            "timeStamp",
            "firstContentfulPaint",
            "firstMeaningfulPaint",
            "totalBlockingTime",
            "timeToInteractive",
            "serverResponseTime",
            "bootupTime",
            "roundTripTime",
            "totalByteWeight",
            "totalFileCount",
            "performance",
            "seo",
            "bestPractices",
        ]
    );
    match field(&doc, "domain") {
        Json::Text(d) => assert_eq!(d, "example.com"),
        _ => panic!("domain is not a text"),
    }
}

#[test]
fn aggregate_twice_yields_identical_sequences() {
    let files = || vec![fixture_one(), fixture_two()];
    let d1 = create_result_aggregate("example.com", files(), false).unwrap();
    let d2 = create_result_aggregate("example.com", files(), false).unwrap();
    for key in [
        "firstContentfulPaint",
        "firstMeaningfulPaint",
        "totalBlockingTime",
        "timeToInteractive",
        "serverResponseTime",
        "bootupTime",
        "roundTripTime",
        "totalByteWeight",
        "performance",
        "seo",
        "bestPractices",
    ] {
        assert_eq!(num_array(&d1, key), num_array(&d2, key));
    }
    assert_eq!(count_array(&d1, "totalFileCount"), count_array(&d2, "totalFileCount"));
}

#[test]
fn non_array_items_is_a_schema_violation() {
    let bad =
        "{\"audits\": {\"total-byte-weight\": {\"numericValue\": 5, \"details\": {\"items\": 17}}}}"
            .to_string();
    let r = create_result_aggregate("example.com", vec![fixture_one(), bad], false);
    match r {
        Err(GroupieError::SchemaViolation { index }) => assert_eq!(index, 1),
        _ => panic!("expected a schema violation"),
    }
}

#[test]
fn absent_items_list_is_a_null_count_not_an_error() {
    let no_items = "{\"audits\": {\"total-byte-weight\": {\"numericValue\": 5}}}".to_string();
    let doc = create_result_aggregate("example.com", vec![no_items], false).unwrap();
    assert_eq!(count_array(&doc, "totalFileCount"), vec![None]);
}

#[test]
fn invalid_json_is_a_parse_failure() {
    let r = create_result_aggregate(
        "example.com",
        vec![fixture_one(), "{not json".to_string()],
        false,
    );
    match r {
        Err(GroupieError::ParseFailure { index }) => assert_eq!(index, 1),
        _ => panic!("expected a parse failure"),
    }
}

#[test]
fn empty_input_gives_empty_sequences() {
    let doc = create_result_aggregate("example.com", vec![], false).unwrap();
    assert!(num_array(&doc, "firstContentfulPaint").is_empty());
    assert!(num_array(&doc, "bestPractices").is_empty());
    assert!(count_array(&doc, "totalFileCount").is_empty());
    assert_eq!(keys(&doc).len(), 14);
}

#[test]
fn error_descriptions_name_the_failure() {
    let e = GroupieError::SchemaViolation { index: 3 };
    assert_eq!(e.describe(), "failed to parse byte weight file count");
    assert_eq!(e.run_index(), Some(3));
    let e = GroupieError::ExternalToolFailure;
    assert!(e.describe().contains("lighthouse"));
    assert_eq!(e.run_index(), None);
}
