use lighthouse_groupie::runner::{collect_run_outputs, lighthouse_args, result_file_path};
use lighthouse_groupie::timefmt::{current_timestamp, format_timestamp};
use lighthouse_groupie::GroupieError;

#[test]
fn result_path_is_dir_domain_timestamp() {
    let p = result_file_path("/home/u/.lighthouse-groupie", "www.google.se", "2024-01-02_03:04:05");
    assert_eq!(p, "/home/u/.lighthouse-groupie/www.google.se/2024-01-02_03:04:05.json");
}

#[test]
fn lighthouse_args_are_exact() {
    let args = lighthouse_args("https://www.google.se", "/tmp/out.json");
    assert_eq!(
        args,
        vec![
            "https://www.google.se".to_string(),
            "--output=json".to_string(),
            "--output-path=/tmp/out.json".to_string(),
            "--chrome-flags=\"--headless\"".to_string(),
        ]
    );
}

#[test]
fn timestamp_is_zero_padded() {
    let t = format_timestamp(2024, 1, 2, 3, 4, 5);
    assert_eq!(t, "2024-01-02_03:04:05");
    let t = format_timestamp(987, 12, 31, 23, 59, 58);
    assert_eq!(t, "0987-12-31_23:59:58");
}

#[test]
fn current_timestamp_has_the_expected_shape() {
    let t = current_timestamp();
    let b: Vec<char> = t.chars().collect();
    assert_eq!(b.len(), 19);
    assert_eq!(b[4], '-');
    assert_eq!(b[7], '-');
    assert_eq!(b[10], '_');
    assert_eq!(b[13], ':');
    assert_eq!(b[16], ':');
    for i in [0, 1, 2, 3, 5, 6, 8, 9, 11, 12, 14, 15, 17, 18] {
        assert!(b[i].is_ascii_digit());
    }
}

#[test]
fn collect_run_outputs_keeps_order() {
    let outs: Vec<Result<String, GroupieError>> =
        vec![Ok("a.json".to_string()), Ok("b.json".to_string())];
    let r = collect_run_outputs(outs).unwrap();
    assert_eq!(r, vec!["a.json".to_string(), "b.json".to_string()]);
}

#[test]
fn collect_run_outputs_stops_at_the_first_failure() {
    let outs: Vec<Result<String, GroupieError>> = vec![
        Ok("a.json".to_string()),
        Err(GroupieError::ExternalToolFailure),
        Ok("c.json".to_string()),
    ];
    match collect_run_outputs(outs) {
        Err(GroupieError::ExternalToolFailure) => {},
        _ => panic!("expected the first failure back"),
    }
}
