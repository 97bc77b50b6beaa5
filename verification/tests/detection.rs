use heuristics::config::{Configuration, Handles, OutputLevel};
use heuristics::detection::{Detection, DetectionAction, DetectionEvent};
use heuristics::filters::{is_known, WildcardFilter};
use heuristics::heuristics::{HeuristicTests, WildcardResult};
use heuristics::response::FeroxResponse;
use std::sync::Arc;

fn config() -> Configuration {
    Configuration {
        dont_filter: false,
        add_slash: false,
        data: vec![],
        methods: vec!["GET".to_string()],
        status_codes: vec![200, 301, 403, 404],
        output_level: OutputLevel::Default,
    }
}

fn tester(config: Configuration) -> HeuristicTests {
    HeuristicTests::new(Arc::new(Handles { config }))
}

fn sized(content_length: u64, word_count: usize, line_count: usize) -> FeroxResponse {
    FeroxResponse {
        url: "http://localhost/x".to_string(),
        method: "GET".to_string(),
        status: 200,
        location: None,
        text: "not found".to_string(),
        content_length,
        word_count,
        line_count,
        wildcard: false,
    }
}

fn filter(
    content_length: Option<u64>,
    word_count: Option<usize>,
    line_count: Option<usize>,
) -> WildcardFilter {
    WildcardFilter {
        content_length,
        word_count,
        line_count,
        method: "GET".to_string(),
        status_code: 200,
        dont_filter: false,
    }
}

/// Answers all four requests with the given response.
fn answer_all<'a>(
    tests: &'a HeuristicTests,
    first: (Detection, DetectionAction<'a>),
    response: &FeroxResponse,
) -> (Detection, DetectionAction<'a>) {
    let mut next = first;
    for _ in 0..4 {
        assert!(matches!(next.1, DetectionAction::Request(_)));
        next = tests.detection_step(next.0, DetectionEvent::Replied(response.status));
        assert!(matches!(next.1, DetectionAction::ReadBody));
        next = tests.detection_step(next.0, DetectionEvent::Body(response.clone()));
    }
    next
}

/// Carries out the two filter actions, from the wildcard filter on.
fn add_filters<'a>(
    tests: &'a HeuristicTests,
    next: (Detection, DetectionAction<'a>),
) -> (Detection, DetectionAction<'a>) {
    assert!(matches!(
        next.1,
        DetectionAction::AddWildcardFilter { .. }
    ));
    let next = tests.detection_step(next.0, DetectionEvent::Added);
    assert!(matches!(next.1, DetectionAction::Sign(_)));
    let next = tests.detection_step(next.0, DetectionEvent::Signature(7));
    assert!(matches!(next.1, DetectionAction::AddSimilarityFilter(_)));
    tests.detection_step(next.0, DetectionEvent::Added)
}

#[test]
fn sizes_in_which_all_responses_agree_are_filtered_on() {
    let tests = tester(config());
    let cases = [
        (sized(10, 2, 1), Some(filter(Some(10), Some(2), Some(1)))),
        (sized(10, 2, 9), Some(filter(Some(10), Some(2), None))),
        (sized(10, 9, 1), Some(filter(Some(10), None, Some(1)))),
        (sized(99, 2, 1), Some(filter(None, Some(2), Some(1)))),
        (sized(10, 9, 9), Some(filter(Some(10), None, None))),
        (sized(99, 2, 9), Some(filter(None, Some(2), None))),
        (sized(99, 9, 1), Some(filter(None, None, Some(1)))),
        (sized(99, 9, 9), None),
    ];
    for (other, expected) in cases {
        let responses = vec![sized(10, 2, 1), sized(10, 2, 1), other];
        let found = tests.examine_404_like_responses(&responses);
        assert_eq!(found.map(|found| *found), expected);
    }
}

#[test]
fn sizes_may_differ_in_different_responses() {
    let tests = tester(config());
    let responses = vec![sized(10, 2, 1), sized(11, 2, 1), sized(10, 3, 1)];
    let found = tests.examine_404_like_responses(&responses).unwrap();
    assert!(*found == filter(None, None, Some(1)));
    let responses = vec![sized(10, 2, 1), sized(11, 2, 1), sized(10, 3, 1), sized(10, 2, 2)];
    assert!(tests.examine_404_like_responses(&responses).is_none());
}

#[test]
fn filter_takes_method_and_status_from_the_first_response() {
    let mut settings = config();
    settings.dont_filter = true;
    let tests = tester(settings);
    let mut first = sized(10, 2, 1);
    first.method = "POST".to_string();
    first.status = 403;
    let found = tests
        .examine_404_like_responses(&[first, sized(10, 2, 1)])
        .unwrap();
    assert_eq!(found.method, "POST");
    assert_eq!(found.status_code, 403);
    assert!(found.dont_filter);
}

#[test]
fn one_response_agrees_with_itself() {
    let found = tester(config())
        .examine_404_like_responses(&[sized(3, 2, 1)])
        .unwrap();
    assert!(*found == filter(Some(3), Some(2), Some(1)));
}

#[test]
fn filters_are_equal_in_all_fields() {
    let base = filter(Some(1), Some(2), Some(3));
    assert!(base == base.clone());
    let mut other = base.clone();
    other.method = "PUT".to_string();
    assert!(base != other);
    assert!(base != filter(Some(1), Some(2), None));
    assert!(is_known(&base, &vec![other.clone(), base.clone()]));
    assert!(!is_known(&base, &vec![other]));
    assert!(!is_known(&base, &vec![]));
}

#[test]
fn nothing_is_requested_when_nothing_is_to_be_filtered() {
    let mut settings = config();
    settings.dont_filter = true;
    let tests = tester(settings);
    let (_, action) = tests.detect_404_like_responses();
    assert!(matches!(action, DetectionAction::Finish(None)));
}

#[test]
fn no_methods_means_no_requests() {
    let mut settings = config();
    settings.methods = vec![];
    let tests = tester(settings);
    let (_, action) = tests.detect_404_like_responses();
    assert!(matches!(
        action,
        DetectionAction::Finish(Some(WildcardResult::FourOhFourLike(0)))
    ));
}

#[test]
fn four_requests_are_made_with_each_method() {
    let mut settings = config();
    settings.methods = vec!["GET".to_string(), "POST".to_string()];
    settings.add_slash = true;
    settings.data = vec![1, 2, 3];
    let tests = tester(settings);
    let mut next = tests.detect_404_like_responses();
    for method in ["GET", "POST"] {
        for (prefix, length) in [("", 1), ("", 3), (".htaccess", 1), ("admin", 1)] {
            match next.1 {
                DetectionAction::Request(probe) => {
                    assert_eq!(probe.method, method);
                    assert_eq!(probe.prefix, prefix);
                    assert_eq!(probe.length, length);
                    assert_eq!(probe.slash, Some("/"));
                    assert_eq!(probe.data, Some(&[1u8, 2, 3][..]));
                    let path = tests.probe_path(&probe);
                    assert!(path.starts_with(prefix));
                    assert_eq!(path.len(), prefix.len() + 32 * length);
                    assert_ne!(path, tests.probe_path(&probe));
                }
                other => panic!("{other:?}"),
            }
            next = tests.detection_step(next.0, DetectionEvent::RequestFailed);
        }
    }
    assert!(matches!(
        next.1,
        DetectionAction::Finish(Some(WildcardResult::FourOhFourLike(8)))
    ));
}

#[test]
fn requests_carry_neither_slash_nor_body_by_default() {
    let tests = tester(config());
    match tests.detect_404_like_responses().1 {
        DetectionAction::Request(probe) => {
            assert_eq!(probe.slash, None);
            assert_eq!(probe.data, None);
        }
        other => panic!("{other:?}"),
    }
}

#[test]
fn unwanted_status_codes_are_skipped_but_counted() {
    let tests = tester(config());
    let mut next = tests.detect_404_like_responses();
    for _ in 0..4 {
        assert!(matches!(next.1, DetectionAction::Request(_)));
        next = tests.detection_step(next.0, DetectionEvent::Replied(500));
    }
    assert!(matches!(
        next.1,
        DetectionAction::Finish(Some(WildcardResult::FourOhFourLike(4)))
    ));
}

#[test]
fn one_response_is_not_enough() {
    let tests = tester(config());
    let (detection, _) = tests.detect_404_like_responses();
    let (detection, _) = tests.detection_step(detection, DetectionEvent::Replied(200));
    let mut next = tests.detection_step(detection, DetectionEvent::Body(sized(1, 1, 1)));
    for _ in 0..3 {
        next = tests.detection_step(next.0, DetectionEvent::RequestFailed);
    }
    assert!(matches!(
        next.1,
        DetectionAction::Finish(Some(WildcardResult::FourOhFourLike(4)))
    ));
}

#[test]
fn responses_that_match_lead_to_both_filters() {
    let tests = tester(config());
    let next = answer_all(&tests, tests.detect_404_like_responses(), &sized(9, 2, 1));
    assert!(matches!(next.1, DetectionAction::ListFilters));
    let next = tests.detection_step(next.0, DetectionEvent::Filters(vec![]));
    match &next.1 {
        DetectionAction::AddWildcardFilter { filter: found, announce } => {
            assert!(**found == filter(Some(9), Some(2), Some(1)));
            assert!(*announce);
        }
        other => panic!("{other:?}"),
    }
    let next = tests.detection_step(next.0, DetectionEvent::Added);
    match &next.1 {
        DetectionAction::Sign(text) => assert_eq!(text, "not found"),
        other => panic!("{other:?}"),
    }
    let next = tests.detection_step(next.0, DetectionEvent::Signature(42));
    match &next.1 {
        DetectionAction::AddSimilarityFilter(found) => {
            assert_eq!(found.hash, 42);
            assert_eq!(found.original_url, "http://localhost/x");
        }
        other => panic!("{other:?}"),
    }
    let next = tests.detection_step(next.0, DetectionEvent::Added);
    assert!(matches!(
        next.1,
        DetectionAction::Finish(Some(WildcardResult::FourOhFourLike(4)))
    ));
}

#[test]
fn filter_in_force_is_not_shown_again() {
    let tests = tester(config());
    let next = answer_all(&tests, tests.detect_404_like_responses(), &sized(9, 2, 1));
    let known = vec![filter(None, None, Some(1)), filter(Some(9), Some(2), Some(1))];
    let next = tests.detection_step(next.0, DetectionEvent::Filters(known));
    assert!(matches!(
        next.1,
        DetectionAction::AddWildcardFilter { announce: false, .. }
    ));
}

#[test]
fn filters_are_added_unseen_at_the_silent_levels() {
    let mut settings = config();
    settings.output_level = OutputLevel::Silent;
    let tests = tester(settings);
    let next = answer_all(&tests, tests.detect_404_like_responses(), &sized(9, 2, 1));
    assert!(matches!(
        next.1,
        DetectionAction::AddWildcardFilter { announce: false, .. }
    ));
}

#[test]
fn wildcard_directory_is_stored_and_counted() {
    let mut settings = config();
    settings.methods = vec!["GET".to_string(), "POST".to_string()];
    settings.output_level = OutputLevel::Silent;
    let tests = tester(settings);
    let mut directory = sized(9, 2, 1);
    directory.url = "http://localhost/x/".to_string();
    let next = answer_all(&tests, tests.detect_404_like_responses(), &directory);
    let next = add_filters(&tests, next);
    match &next.1 {
        DetectionAction::Store(response) => {
            assert_eq!(response.url, "http://localhost/x/");
            assert!(response.wildcard);
        }
        other => panic!("{other:?}"),
    }
    let mut next = tests.detection_step(next.0, DetectionEvent::Stored);
    for _ in 0..4 {
        assert!(matches!(next.1, DetectionAction::Request(_)));
        next = tests.detection_step(next.0, DetectionEvent::RequestFailed);
    }
    assert!(matches!(
        next.1,
        DetectionAction::Finish(Some(WildcardResult::WildcardDirectory(108)))
    ));
}

#[test]
fn each_method_is_judged_by_its_own_responses() {
    let mut settings = config();
    settings.methods = vec!["GET".to_string(), "POST".to_string()];
    settings.output_level = OutputLevel::Silent;
    let tests = tester(settings);
    let next = answer_all(&tests, tests.detect_404_like_responses(), &sized(9, 2, 1));
    let next = add_filters(&tests, next);
    let next = answer_all(&tests, next, &sized(500, 60, 7));
    match &next.1 {
        DetectionAction::AddWildcardFilter { filter: found, .. } => {
            assert!(**found == filter(Some(500), Some(60), Some(7)));
        }
        other => panic!("{other:?}"),
    }
}

#[test]
fn many_methods_make_no_wildcard_directory() {
    let mut settings = config();
    settings.methods = vec!["GET".to_string(); 26];
    let tests = tester(settings);
    let mut next = tests.detect_404_like_responses();
    for _ in 0..104 {
        next = tests.detection_step(next.0, DetectionEvent::RequestFailed);
    }
    assert!(matches!(
        next.1,
        DetectionAction::Finish(Some(WildcardResult::FourOhFourLike(104)))
    ));
}

#[test]
fn bad_url_cuts_the_detection_short() {
    let tests = tester(config());
    let (detection, _) = tests.detect_404_like_responses();
    let (_, action) = tests.detection_step(detection, DetectionEvent::BadUrl);
    assert!(matches!(action, DetectionAction::Abort));
}

#[test]
fn filter_that_cannot_be_added_cuts_the_detection_short() {
    let mut settings = config();
    settings.output_level = OutputLevel::Silent;
    let tests = tester(settings);
    let next = answer_all(&tests, tests.detect_404_like_responses(), &sized(9, 2, 1));
    let next = tests.detection_step(next.0, DetectionEvent::AddFailed);
    assert!(matches!(next.1, DetectionAction::Abort));

    let next = answer_all(&tests, tests.detect_404_like_responses(), &sized(9, 2, 1));
    let next = tests.detection_step(next.0, DetectionEvent::Added);
    let next = tests.detection_step(next.0, DetectionEvent::Signature(1));
    let next = tests.detection_step(next.0, DetectionEvent::AddFailed);
    assert!(matches!(next.1, DetectionAction::Abort));
}

#[test]
fn directories_are_told_by_status_url_and_location() {
    let mut response = sized(0, 0, 0);
    assert!(!response.is_directory());
    response.url = "http://localhost/x/".to_string();
    assert!(response.is_directory());
    response.status = 403;
    assert!(response.is_directory());
    response.status = 404;
    assert!(!response.is_directory());

    response.url = "http://localhost/x".to_string();
    response.status = 301;
    assert!(!response.is_directory());
    response.location = Some("http://localhost/x/".to_string());
    assert!(response.is_directory());
    response.location = Some("http://localhost/y/".to_string());
    assert!(!response.is_directory());

    response.set_wildcard(true);
    assert!(response.wildcard);
    response.set_wildcard(false);
    assert!(!response.wildcard);
}

#[test]
fn ordinary_settings_can_be_counted() {
    assert!(config().can_be_counted());
}

#[test]
fn status_codes_count_as_answers_when_listed() {
    assert!(config().accepts_status(301));
    assert!(!config().accepts_status(302));
}

#[test]
fn many_patterns_make_no_wildcard_directory() {
    let mut settings = config();
    settings.methods = vec!["GET".to_string(); 26];
    settings.output_level = OutputLevel::Silent;
    let tests = tester(settings);
    let mut next = tests.detect_404_like_responses();
    for _ in 0..26 {
        next = answer_all(&tests, next, &sized(9, 2, 1));
        next = add_filters(&tests, next);
    }
    assert!(matches!(
        next.1,
        DetectionAction::Finish(Some(WildcardResult::FourOhFourLike(104)))
    ));
}

#[test]
fn unwanted_status_is_as_good_as_no_reply() {
    let mut settings = config();
    settings.output_level = OutputLevel::Silent;
    let tests = tester(settings);
    for unwanted in [DetectionEvent::RequestFailed, DetectionEvent::Replied(500)] {
        let (detection, _) = tests.detect_404_like_responses();
        let mut next = tests.detection_step(detection, unwanted);
        for _ in 0..3 {
            next = tests.detection_step(next.0, DetectionEvent::Replied(200));
            next = tests.detection_step(next.0, DetectionEvent::Body(sized(9, 2, 1)));
        }
        match &next.1 {
            DetectionAction::AddWildcardFilter { filter: found, .. } => {
                assert!(**found == filter(Some(9), Some(2), Some(1)));
            }
            other => panic!("{other:?}"),
        }
        let next = add_filters(&tests, next);
        assert!(matches!(
            next.1,
            DetectionAction::Finish(Some(WildcardResult::FourOhFourLike(4)))
        ));
    }
}
