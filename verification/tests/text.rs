use usrs_cli::strutil::parse_decimal;
use usrs_cli::strutil::str_concat;
use usrs_cli::strutil::str_contains;
use usrs_cli::strutil::str_starts_with;
use usrs_cli::server_interface::pick_result;
use usrs_cli::server_interface::search_query_url;
use usrs_cli::server_interface::SearchResult;

#[test]
fn starts_with_checks_prefixes() {
    assert!(str_starts_with("file:///a", "file://"));
    assert!(!str_starts_with("files:///a", "file://"));
    assert!(!str_starts_with("file:/", "file://"));
    assert!(str_starts_with("anything", ""));
}

#[test]
fn contains_finds_substrings() {
    assert!(str_contains("https://www.youtube.com/watch", "youtube"));
    assert!(str_contains("https://youtu.be/x", "youtu.be"));
    assert!(!str_contains("https://example.com/youtub", "youtube"));
    assert!(str_contains("", ""));
    assert!(!str_contains("", "y"));
}

#[test]
fn concat_joins() {
    assert_eq!(str_concat("file://", "/tmp/a.mp3"), "file:///tmp/a.mp3");
    assert_eq!(str_concat("", "x"), "x");
}

#[test]
fn parse_decimal_reads_content_lengths() {
    assert_eq!(parse_decimal("0"), Some(0));
    assert_eq!(parse_decimal("4096"), Some(4096));
    assert_eq!(parse_decimal("18446744073709551615"), Some(u64::MAX));
}

#[test]
fn parse_decimal_rejects_junk() {
    assert_eq!(parse_decimal(""), None);
    assert_eq!(parse_decimal("12a"), None);
    assert_eq!(parse_decimal("-5"), None);
    assert_eq!(parse_decimal(" 5"), None);
    assert_eq!(parse_decimal("18446744073709551616"), None);
}

#[test]
fn search_url_is_server_plus_query() {
    assert_eq!(
        search_query_url("http://localhost:8000", "africa"),
        "http://localhost:8000/search?q=africa"
    );
}

#[test]
fn pick_result_joins_server_and_path() {
    let results = vec![
        SearchResult {
            artist: String::from("Toto"),
            title: String::from("Africa"),
            genre: Some(String::from("Rock")),
            path: String::from("songs/africa.txt"),
        },
        SearchResult {
            artist: String::from("A-ha"),
            title: String::from("Take On Me"),
            genre: None,
            path: String::from("songs/take-on-me.txt"),
        },
    ];
    assert_eq!(
        pick_result("http://localhost:8000", &results, 1),
        Some(String::from("http://localhost:8000/songs/take-on-me.txt"))
    );
    assert_eq!(pick_result("http://localhost:8000", &results, 2), None);
}
