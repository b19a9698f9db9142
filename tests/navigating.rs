use portfolio_viewer::formatter::Formatter;
use portfolio_viewer::navigation::{ActiveView, Key, Navigation};
use portfolio_viewer::parser::Parser;

fn nav(titles: &[&str]) -> Navigation {
    Navigation::new(titles.iter().map(|t| t.to_string()).collect())
}

#[test]
fn previous_wraps_around_three_sections() {
    let mut n = nav(&["Home", "A", "B"]);
    n.handle_key(Key::Left);
    assert_eq!(n.current_index, 2);
    n.handle_key(Key::Left);
    assert_eq!(n.current_index, 1);
    n.handle_key(Key::Left);
    assert_eq!(n.current_index, 0);
}

#[test]
fn digit_beyond_the_sections_changes_nothing() {
    let mut n = nav(&["Home", "A"]);
    n.handle_key(Key::Char('5'));
    assert_eq!(n.current_index, 0);
    n.handle_key(Key::Char('2'));
    assert_eq!(n.current_index, 1);
}

#[test]
fn zero_selects_the_tenth_section() {
    let titles: Vec<String> = (0..11).map(|i| format!("S{}", i)).collect();
    let mut n = Navigation::new(titles);
    n.handle_key(Key::Char('0'));
    assert_eq!(n.current_index, 9);
    n.handle_key(Key::Char('1'));
    assert_eq!(n.current_index, 0);
}

#[test]
fn next_wraps_and_home_resets() {
    let mut n = nav(&["Home", "A", "B"]);
    n.handle_key(Key::Right);
    n.handle_key(Key::Char('l'));
    assert_eq!(n.current_index, 2);
    n.handle_key(Key::Right);
    assert_eq!(n.current_index, 0);
    n.handle_key(Key::Char('j'));
    assert_eq!(n.current_index, 2);
    n.handle_key(Key::Char('h'));
    assert_eq!(n.current_index, 0);
}

#[test]
fn letter_jumps_to_first_matching_title_case_insensitively() {
    let mut n = nav(&["Home", "projects", "Posts", "About"]);
    n.handle_key(Key::Char('P'));
    assert_eq!(n.current_index, 1);
    n.handle_key(Key::Char('a'));
    assert_eq!(n.current_index, 3);
    n.handle_key(Key::Char('z'));
    assert_eq!(n.current_index, 3);
}

#[test]
fn quit_stops_all_further_transitions() {
    let mut n = nav(&["Home", "A"]);
    n.handle_key(Key::Char('q'));
    assert!(n.should_quit);
    n.handle_key(Key::Right);
    assert_eq!(n.current_index, 0);
}

#[test]
fn empty_navigation_ignores_moves() {
    let mut n = nav(&[]);
    n.handle_key(Key::Left);
    n.handle_key(Key::Right);
    n.handle_key(Key::Char('3'));
    n.handle_key(Key::Other);
    assert_eq!(n.current_index, 0);
}

#[test]
fn sections_are_home_then_document_order_and_views_follow() {
    let p = Parser::new()
        .parse("content:\n  - title: Projects\n  - title: Contact\n")
        .unwrap();
    let shown = Formatter::new().format(&p);
    let mut n = Navigation::for_portfolio(&shown);
    assert_eq!(n.sections, vec!["Home", "Projects", "Contact"]);
    assert_eq!(n.current_view(), ActiveView::Home);
    n.handle_key(Key::Char('c'));
    assert_eq!(n.current_index, 2);
    assert_eq!(n.current_view(), ActiveView::Content(1));
    n.navigate_to_section(1);
    assert_eq!(n.current_view(), ActiveView::Content(0));
    n.navigate_to_section(7);
    assert_eq!(n.current_index, 1);
}
