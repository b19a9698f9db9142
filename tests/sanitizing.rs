use portfolio_viewer::formatter::Formatter;
use portfolio_viewer::sanitize::{remove_image_references, remove_mark_tags, sanitize, wrap_text};

#[test]
fn wraps_at_width_ten_on_spaces_only() {
    let out = sanitize("the quick brown fox", 10);
    assert_eq!(out, "the quick\nbrown fox");
    for line in out.split('\n') {
        assert!(line.chars().count() <= 10);
    }
    assert_eq!(out.replace('\n', " "), "the quick brown fox");
}

#[test]
fn image_reference_is_deleted_with_its_alt_text() {
    let out = sanitize("before ![alt](/x.png \"t\") after", 100);
    assert!(!out.contains("alt"));
    assert!(!out.contains("/x.png"));
    assert_eq!(out, "before  after");
}

#[test]
fn image_reference_without_title_is_deleted() {
    assert_eq!(remove_image_references("a ![pic](/p.jpg) b"), "a  b");
}

#[test]
fn highlight_markers_are_stripped_and_text_kept() {
    assert_eq!(remove_mark_tags("I like <mark>Rust</mark> and <mark>Go</mark>."), "I like Rust and Go.");
    assert_eq!(sanitize("<mark>FastAPI</mark> dev", 100), "FastAPI dev");
}

#[test]
fn blank_paragraphs_become_empty_lines() {
    assert_eq!(wrap_text("one\n  \t \ntwo", 100), "one\n\ntwo");
    assert_eq!(wrap_text("", 100), "");
}

#[test]
fn long_word_stays_whole_on_its_own_line() {
    assert_eq!(sanitize("a supercalifragilistic b", 5), "a\nsupercalifragilistic\nb");
}

#[test]
fn hyphenated_words_are_not_split() {
    assert_eq!(sanitize("x well-known", 6), "x\nwell-known");
}

#[test]
fn sanitizing_twice_changes_nothing_on_plain_text() {
    let text = "the quick brown fox jumps over the lazy dog\n\nsecond paragraph here";
    let once = sanitize(text, 12);
    assert_eq!(sanitize(&once, 12), once);
}

#[test]
fn process_text_uses_the_formatter_width() {
    let f = Formatter::with_max_width(10);
    assert_eq!(f.process_text("the quick brown fox"), "the quick\nbrown fox");
    let wide = Formatter::new();
    assert_eq!(wide.process_text("the quick brown fox"), "the quick brown fox");
}
