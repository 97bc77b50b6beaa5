use heuristics::config::{Configuration, Handles, OutputLevel};
use heuristics::connectivity::{Reachability, Unreachable};
use heuristics::heuristics::HeuristicTests;
use std::sync::Arc;

fn tester(output_level: OutputLevel) -> HeuristicTests {
    HeuristicTests::new(Arc::new(Handles {
        config: Configuration {
            dont_filter: false,
            add_slash: false,
            data: vec![],
            methods: vec!["GET".to_string()],
            status_codes: vec![200],
            output_level,
        },
    }))
}

fn targets() -> Vec<String> {
    ["http://a", "http://b", "nonsense", "http://d"]
        .iter()
        .map(|target| target.to_string())
        .collect()
}

#[test]
fn reached_targets_are_kept_in_order() {
    let targets = targets();
    let tests = tester(OutputLevel::Default);
    let mut check = tests.connectivity(&targets);
    assert_eq!(check.pending().unwrap(), "http://a");
    assert_eq!(check.report(&Reachability::Reached), None);
    assert_eq!(check.pending().unwrap(), "http://b");
    assert_eq!(
        check.report(&Reachability::Failed("connection refused".to_string())),
        Some("Could not connect to http://b, skipping...".to_string())
    );
    assert_eq!(check.pending().unwrap(), "nonsense");
    assert_eq!(check.report(&Reachability::Malformed), None);
    assert_eq!(check.pending().unwrap(), "http://d");
    assert_eq!(check.report(&Reachability::Reached), None);
    assert!(check.pending().is_none());
    assert_eq!(check.finish().unwrap(), ["http://a", "http://d"]);
}

#[test]
fn ssl_errors_are_told_apart() {
    let targets = targets();
    let tests = tester(OutputLevel::Quiet);
    let mut check = tests.connectivity(&targets);
    assert_eq!(
        check.report(&Reachability::Failed(
            "error:0A000086:SSL routines: certificate verify failed".to_string()
        )),
        Some(
            "Could not connect to http://a due to SSL errors (run with -k to ignore), skipping..."
                .to_string()
        )
    );
    assert_eq!(
        check.report(&Reachability::Failed("SSL: but no colon before".to_string())),
        Some("Could not connect to http://b, skipping...".to_string())
    );
}

#[test]
fn nothing_is_shown_at_the_silent_levels() {
    let targets = targets();
    for level in [OutputLevel::Silent, OutputLevel::SilentJSON] {
        let tests = tester(level);
        let mut check = tests.connectivity(&targets);
        assert_eq!(
            check.report(&Reachability::Failed("x:SSL".to_string())),
            None
        );
    }
}

#[test]
fn check_fails_when_no_target_was_reached() {
    let targets = targets();
    let tests = tester(OutputLevel::Silent);
    let mut check = tests.connectivity(&targets);
    while check.pending().is_some() {
        check.report(&Reachability::Malformed);
    }
    let error = check.finish().unwrap_err();
    assert_eq!(error, Unreachable);
    assert_eq!(error.message(), "Could not connect to any target provided");
}

#[test]
fn check_of_no_targets_fails() {
    let tests = tester(OutputLevel::Default);
    let check = tests.connectivity(&[]);
    assert!(check.pending().is_none());
    assert!(check.finish().is_err());
}
