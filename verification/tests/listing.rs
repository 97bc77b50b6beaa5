use heuristics::config::{Configuration, Handles, OutputLevel};
use heuristics::heuristics::{DirListingType, HeuristicTests};
use heuristics::html::Html;
use heuristics::listing::{classify_title, listing_url, server_of};
use heuristics::response::FeroxResponse;
use std::sync::Arc;

fn tester() -> HeuristicTests {
    HeuristicTests::new(Arc::new(Handles {
        config: Configuration {
            dont_filter: false,
            add_slash: false,
            data: vec![],
            methods: vec!["GET".to_string()],
            status_codes: vec![200],
            output_level: OutputLevel::Default,
        },
    }))
}

fn page(text: &str) -> FeroxResponse {
    FeroxResponse {
        url: "http://localhost/files/".to_string(),
        method: "GET".to_string(),
        status: 200,
        location: None,
        text: text.to_string(),
        content_length: text.len() as u64,
        word_count: text.split_whitespace().count(),
        line_count: text.lines().count(),
        wildcard: false,
    }
}

fn titles(titles: &[&str]) -> Html {
    Html {
        titles: titles.iter().map(|title| title.to_string()).collect(),
    }
}

#[test]
fn listing_url_adds_a_missing_slash_only() {
    assert_eq!(listing_url("http://localhost"), "http://localhost/");
    assert_eq!(listing_url("http://localhost/"), "http://localhost/");
    assert_eq!(
        listing_url(&listing_url("http://localhost/a")),
        "http://localhost/a/"
    );
    assert_eq!(listing_url(""), "/");
    assert_eq!(listing_url("http://localhost/\u{e9}"), "http://localhost/\u{e9}/");
}

#[test]
fn documents_are_reduced_to_their_titles() {
    let html = Html::parse_document(
        "<html><head><title>One &amp; <b>two</b></title></head><body><p>title</p>\
         <svg><title>Three</title></svg></body></html>",
    );
    assert_eq!(html.titles, ["One &amp; &lt;b&gt;two&lt;/b&gt;", "Three"]);
    assert!(Html::parse_document("no title here").titles.is_empty());
    assert!(Html::parse_document("").titles.is_empty());
}

#[test]
fn titles_are_compared_in_lower_case() {
    for title in ["Index of /", "INDEX OF /pub", "\u{dc}bersicht: Index of /"] {
        let found = tester().detect_directory_listing(&titles(&[title]));
        assert!(matches!(found, Some(DirListingType::Apache)));
    }
    let found = tester().detect_directory_listing(&titles(&["Directory Listing For /x"]));
    assert!(matches!(found, Some(DirListingType::TomCatOrPython)));
    let found = tester().detect_directory_listing(&titles(&["Directory Listing -- /x"]));
    assert!(matches!(found, Some(DirListingType::AspDotNet)));
    assert!(classify_title("Index of /").is_none());
}

#[test]
fn phrases_need_their_slash_and_their_order_matters() {
    assert!(classify_title("index of").is_none());
    assert!(classify_title("localhost - /").is_none());
    assert!(classify_title("").is_none());
    assert!(matches!(
        classify_title("index of / directory listing for /"),
        Some(DirListingType::TomCatOrPython)
    ));
    assert!(matches!(
        classify_title("directory listing -- / index of /"),
        Some(DirListingType::Apache)
    ));
}

#[test]
fn first_title_that_matches_decides() {
    let found = tester().detect_directory_listing(&titles(&[
        "welcome",
        "directory listing -- /",
        "index of /",
    ]));
    assert!(matches!(found, Some(DirListingType::AspDotNet)));
    assert!(tester()
        .detect_directory_listing(&titles(&["welcome", "hello"]))
        .is_none());
    assert!(tester().detect_directory_listing(&titles(&[])).is_none());
}

#[test]
fn detected_listing_comes_with_its_message() {
    let (result, message) = tester()
        .directory_listing(
            "http://localhost/files",
            page("<html><head><title>Index of /files</title></head></html>"),
        )
        .unwrap();
    assert!(matches!(result.dir_list_type, Some(DirListingType::Apache)));
    assert_eq!(result.response.url, "http://localhost/files/");
    assert_eq!(message.kind, "log");
    assert_eq!(message.level, "MSG");
    assert_eq!(message.module, "feroxbuster::heuristics");
    assert_eq!(
        message.message,
        "detected directory listing: http://localhost/files (Apache)"
    );
}

#[test]
fn other_pages_are_no_listing() {
    assert!(tester()
        .directory_listing("http://localhost/", page("<title>hello</title>index of /"))
        .is_none());
}

#[test]
fn messages_name_the_server() {
    for (server, name) in [
        (DirListingType::Apache, "Apache"),
        (DirListingType::TomCatOrPython, "TomCatOrPython"),
        (DirListingType::AspDotNet, "AspDotNet"),
    ] {
        let (_, message) = tester()
            .listing_result("u", page(""), Some(server))
            .unwrap();
        assert_eq!(
            message.message,
            format!("detected directory listing: u ({name})")
        );
        assert_eq!(server.name(), name);
    }
    assert!(tester().listing_result("u", page(""), None).is_none());
    assert_eq!(DirListingType::NoListing.name(), "None");
}

#[test]
fn documents_of_ordinary_size_can_be_parsed() {
    assert!(Html::can_parse(""));
    assert!(Html::can_parse("<title>index of /</title>"));
    assert!(Html::can_parse("<title>\0&nGt;&nLt;\0</title>"));
    assert_eq!(
        Html::parse_document("<title>\0&nGt;</title>").titles,
        ["\u{fffd}\u{226b}\u{20d2}"]
    );
}

#[test]
fn letter_case_of_titles_makes_no_difference() {
    let lower = titles(&["caf\u{e9}", "index of /pub", "directory listing -- /"]);
    let mixed = titles(&["caf\u{e9}", "InDeX oF /PUB", "Directory Listing -- /"]);
    for html in [&lower, &mixed] {
        assert!(matches!(
            tester().detect_directory_listing(html),
            Some(DirListingType::Apache)
        ));
    }
}

#[test]
fn title_beside_one_that_is_not_ascii_is_still_recognised() {
    let (result, _) = tester()
        .directory_listing(
            "u",
            page("<title>Caf\u{e9}</title><svg><title>INDEX OF /</title></svg>"),
        )
        .unwrap();
    assert!(matches!(result.dir_list_type, Some(DirListingType::Apache)));
}

#[test]
fn phrases_are_recognised_beside_other_letters() {
    for title in [
        "Index of /caf\u{e9}",
        "INDEX OF /CAF\u{c9}",
        "\u{39f}\u{394}\u{39f}\u{3a3} Index of /",
        "\u{3a3}iNdEx Of /\u{3a3}",
    ] {
        assert!(matches!(server_of(title), Some(DirListingType::Apache)));
    }
    assert!(matches!(
        server_of("\u{dc} Directory Listing For /\u{e9}"),
        Some(DirListingType::TomCatOrPython)
    ));
    assert!(server_of("\u{dc}bersicht").is_none());
}

#[test]
fn slash_of_the_target_makes_no_difference() {
    assert_eq!(listing_url("http://localhost/a"), listing_url("http://localhost/a/"));
    let text = "<title>Index of /a</title>";
    let (without, message) = tester()
        .directory_listing("http://localhost/a", page(text))
        .unwrap();
    let (with, other) = tester()
        .directory_listing("http://localhost/a/", page(text))
        .unwrap();
    assert!(matches!(without.dir_list_type, Some(DirListingType::Apache)));
    assert!(matches!(with.dir_list_type, Some(DirListingType::Apache)));
    assert_eq!(without.response.url, with.response.url);
    assert_eq!(message.message, "detected directory listing: http://localhost/a (Apache)");
    assert_eq!(other.message, "detected directory listing: http://localhost/a/ (Apache)");
}
