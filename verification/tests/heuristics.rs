use heuristics::config::{Configuration, Handles, OutputLevel};
use heuristics::heuristics::{DirListingType, HeuristicTests};
use heuristics::html::Html;
use heuristics::unique::join_uuids;
use std::sync::Arc;

fn tester() -> HeuristicTests {
    HeuristicTests::new(Arc::new(Handles {
        config: Configuration {
            dont_filter: false,
            add_slash: false,
            data: vec![],
            methods: vec!["GET".to_string()],
            status_codes: vec![200, 301, 403, 404],
            output_level: OutputLevel::Default,
        },
    }))
}

#[test]
/// request a unique string of 32bytes * a value returns correct result
fn heuristics_unique_string_returns_correct_length() {
    let tester = tester();
    for i in 0..10 {
        assert_eq!(tester.unique_string(i).len(), i * 32);
    }
}

#[test]
/// `detect_directory_listing` correctly identifies tomcat/python instances
fn detect_directory_listing_finds_tomcat_python() {
    let html = "<title>directory listing for /</title>";
    let parsed = Html::parse_document(html);
    let heuristics = tester();
    let dirlist_type = heuristics.detect_directory_listing(&parsed);
    assert!(matches!(
        dirlist_type.unwrap(),
        DirListingType::TomCatOrPython
    ));
}

#[test]
/// `detect_directory_listing` correctly identifies apache instances
fn detect_directory_listing_finds_apache() {
    let html = "<title>index of /</title>";
    let parsed = Html::parse_document(html);
    let heuristics = tester();
    let dirlist_type = heuristics.detect_directory_listing(&parsed);
    assert!(matches!(dirlist_type.unwrap(), DirListingType::Apache));
}

#[test]
/// `detect_directory_listing` correctly identifies ASP.NET instances
fn detect_directory_listing_finds_asp_dot_net() {
    let html = "<title>directory listing -- /</title>";
    let parsed = Html::parse_document(html);
    let heuristics = tester();
    let dirlist_type = heuristics.detect_directory_listing(&parsed);
    assert!(matches!(dirlist_type.unwrap(), DirListingType::AspDotNet));
}

#[test]
/// `detect_directory_listing` returns None when heuristic doesn't match
fn detect_directory_listing_returns_none_as_default() {
    let html = "<title>derp listing -- /</title>";
    let parsed = Html::parse_document(html);
    let heuristics = tester();
    let dirlist_type = heuristics.detect_directory_listing(&parsed);
    assert!(dirlist_type.is_none());
}

#[test]
fn new_keeps_the_handles_it_is_given() {
    let handles = Arc::new(Handles {
        config: Configuration {
            dont_filter: true,
            add_slash: true,
            data: vec![1, 2],
            methods: vec![],
            status_codes: vec![],
            output_level: OutputLevel::Silent,
        },
    });
    let tests = HeuristicTests::new(handles.clone());
    assert!(Arc::ptr_eq(&tests.handles, &handles));
}

#[test]
fn unique_strings_are_lower_case_hexadecimal_and_of_version_four() {
    let text = tester().unique_string(3);
    assert!(text
        .chars()
        .all(|c| c.is_ascii_digit() || ('a'..='f').contains(&c)));
    for block in 0..3 {
        let id = &text[block * 32..(block + 1) * 32];
        assert_eq!(&id[12..13], "4");
        assert!(["8", "9", "a", "b"].contains(&&id[16..17]));
    }
}

#[test]
fn unique_strings_differ() {
    assert_ne!(tester().unique_string(1), tester().unique_string(1));
}

#[test]
fn uuids_are_joined_without_hyphens_in_lower_case() {
    let first: [u8; 16] = [
        0x00, 0x01, 0x0f, 0x10, 0x9a, 0xbc, 0x4d, 0xef, 0x80, 0xff, 0x7f, 0xa0, 0x0a, 0xf0, 0x5e,
        0xc3,
    ];
    let second: [u8; 16] = [0xab; 16];
    assert_eq!(join_uuids(&vec![]), "");
    assert_eq!(
        join_uuids(&vec![first, second]),
        "00010f109abc4def80ff7fa00af05ec3abababababababababababababababab"
    );
}

#[test]
fn distinct_uuids_make_distinct_blocks() {
    let ids: Vec<[u8; 16]> = (0..4u8)
        .map(|i| {
            let mut id = [0x11; 16];
            id[i as usize] = 0x10;
            id
        })
        .collect();
    let text = join_uuids(&ids);
    let blocks: Vec<&str> = (0..4).map(|k| &text[32 * k..32 * k + 32]).collect();
    for i in 0..4 {
        for j in 0..i {
            assert_ne!(blocks[i], blocks[j]);
        }
    }
    assert_ne!(join_uuids(&ids[..2].to_vec()), join_uuids(&ids[2..].to_vec()));
}
