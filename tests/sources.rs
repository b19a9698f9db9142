use portfolio_viewer::ascii_art::{get_logo, DEFAULT_LOGO, DUCK_LOGO};
use portfolio_viewer::source::{is_remote_source, raw_content_url};
use portfolio_viewer::text::{replace_all, split_lines};

#[test]
fn duck_logo_is_chosen_case_insensitively() {
    assert_eq!(get_logo("DuCk"), DUCK_LOGO);
    assert_eq!(get_logo("duck"), DUCK_LOGO);
    assert_eq!(get_logo("goose"), DEFAULT_LOGO);
}

#[test]
fn repository_page_becomes_raw_address() {
    assert_eq!(
        raw_content_url("https://github.com/u/r/blob/main/_config.yml"),
        "https://raw.githubusercontent.com/u/r/main/_config.yml"
    );
    assert_eq!(raw_content_url("https://example.com/a.yml"), "https://example.com/a.yml");
    assert_eq!(raw_content_url("https://github.com/u/r"), "https://github.com/u/r");
}

#[test]
fn remote_sources_start_with_http() {
    assert!(is_remote_source("https://x"));
    assert!(!is_remote_source("./portfolio.yml"));
    assert!(!is_remote_source("htt"));
}

#[test]
fn replacement_is_left_to_right_and_non_overlapping() {
    assert_eq!(replace_all("aaaa", "aa", "b"), "bb");
    assert_eq!(replace_all("<ma<mark>rk>", "<mark>", ""), "<mark>");
}

#[test]
fn splitting_keeps_empty_pieces() {
    assert_eq!(split_lines("a\n\nb\n"), vec!["a", "", "b", ""]);
    assert_eq!(split_lines(""), vec![""]);
}
