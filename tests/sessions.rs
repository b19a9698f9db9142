use portfolio_viewer::formatter::Formatter;
use portfolio_viewer::navigation::Key;
use portfolio_viewer::parser::ParseError;
use portfolio_viewer::session::Session;

#[test]
fn load_builds_display_and_navigation_together() {
    let doc = "name: Ada\ncontent:\n  - title: Work\n    content: \"text\"\n";
    let s = Session::load(doc, &Formatter::new()).unwrap();
    assert_eq!(s.portfolio.name, "Ada");
    assert_eq!(s.navigation.sections, vec!["Home", "Work"]);
    assert_eq!(s.navigation.current_index, 0);
}

#[test]
fn failed_reload_keeps_the_previous_session() {
    let f = Formatter::new();
    let mut s = Session::load("name: Ada\ncontent:\n  - title: Work\n", &f).unwrap();
    s.navigation.handle_key(Key::Right);
    match s.reload("content: [", &f) {
        Err(ParseError::Syntax(_)) => {}
        other => panic!("expected a syntax error, got {:?}", other),
    }
    assert_eq!(s.reload("content: 3\n", &f), Err(ParseError::SchemaMismatch));
    assert_eq!(s.portfolio.name, "Ada");
    assert_eq!(s.navigation.current_index, 1);
}

#[test]
fn successful_reload_replaces_everything() {
    let f = Formatter::new();
    let mut s = Session::load("name: Ada\ncontent:\n  - title: Work\n", &f).unwrap();
    s.navigation.handle_key(Key::Right);
    assert_eq!(s.reload("name: Bo\n", &f), Ok(()));
    assert_eq!(s.portfolio.name, "Bo");
    assert_eq!(s.navigation.sections, vec!["Home"]);
    assert_eq!(s.navigation.current_index, 0);
}
