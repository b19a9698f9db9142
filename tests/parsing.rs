use portfolio_viewer::models::ContentValue;
use portfolio_viewer::parser::{ParseError, Parser};

fn section_content(doc: &str) -> Result<ContentValue, ParseError> {
    let portfolio = Parser::new().parse(doc)?;
    let sections = portfolio.content.expect("sections");
    Ok(sections[0].content.clone())
}

#[test]
fn sequence_content_parses_to_items() {
    let doc = "content:\n  - title: Skills\n    content: [\"a\", \"b\"]\n";
    match section_content(doc) {
        Ok(ContentValue::Items(items)) => {
            assert_eq!(items.len(), 2);
            assert_eq!(items[0].title.as_deref(), Some("a"));
            assert_eq!(items[1].title.as_deref(), Some("b"));
            assert!(items[0].description.is_none());
        }
        other => panic!("expected items, got {:?}", other),
    }
}

#[test]
fn string_content_parses_to_text() {
    let doc = "content:\n  - title: About\n    content: \"x\"\n";
    match section_content(doc) {
        Ok(ContentValue::Text(t)) => assert_eq!(t, "x"),
        other => panic!("expected text, got {:?}", other),
    }
}

#[test]
fn missing_content_parses_to_empty() {
    let doc = "content:\n  - title: Nothing\n    layout: list\n";
    match section_content(doc) {
        Ok(ContentValue::Empty) => {}
        other => panic!("expected empty, got {:?}", other),
    }
}

#[test]
fn mapping_content_is_a_schema_mismatch() {
    let doc = "content:\n  - title: Bad\n    content: {a: 1}\n";
    assert_eq!(Parser::new().parse(doc).unwrap_err(), ParseError::SchemaMismatch);
}

#[test]
fn null_content_is_a_schema_mismatch() {
    let doc = "content:\n  - title: Bad\n    content:\n";
    assert_eq!(Parser::new().parse(doc).unwrap_err(), ParseError::SchemaMismatch);
}

#[test]
fn malformed_yaml_is_a_syntax_error() {
    let err = Parser::new().parse("name: [unclosed\n").unwrap_err();
    match err {
        ParseError::Syntax(message) => assert!(!message.is_empty()),
        other => panic!("expected a syntax error, got {:?}", other),
    }
}

#[test]
fn non_mapping_document_is_a_schema_mismatch() {
    assert_eq!(Parser::new().parse("- a\n- b\n").unwrap_err(), ParseError::SchemaMismatch);
}

#[test]
fn missing_fields_are_absent_not_errors() {
    let p = Parser::new().parse("name: Ada\nunknown_key: 3\n").unwrap();
    assert_eq!(p.name.as_deref(), Some("Ada"));
    assert!(p.title.is_none());
    assert!(p.email.is_none());
    assert!(p.content.is_none());
    assert!(p.darkmode.is_none());
}

#[test]
fn scalar_fields_keep_their_text() {
    let p = Parser::new().parse("version: 1.5\nname: null\ndarkmode: true\n").unwrap();
    assert_eq!(p.version.as_deref(), Some("1.5"));
    assert!(p.name.is_none());
    assert_eq!(p.darkmode, Some(true));
}

#[test]
fn item_mappings_keep_every_field() {
    let doc = "content:\n  - title: Projects\n    layout: list\n    content:\n      - title: Viewer\n        sub_title: TUI\n        quote: fast\n        url: https://x.y\n        additional_links:\n          - title: Docs\n            url: https://d\n";
    let p = Parser::new().parse(doc).unwrap();
    let sections = p.content.unwrap();
    assert_eq!(sections[0].layout.as_deref(), Some("list"));
    match &sections[0].content {
        ContentValue::Items(items) => {
            assert_eq!(items.len(), 1);
            assert_eq!(items[0].title.as_deref(), Some("Viewer"));
            assert_eq!(items[0].sub_title.as_deref(), Some("TUI"));
            assert_eq!(items[0].quote.as_deref(), Some("fast"));
            assert_eq!(items[0].url.as_deref(), Some("https://x.y"));
            let links = items[0].additional_links.as_ref().unwrap();
            assert_eq!(links.len(), 1);
            assert_eq!(links[0].title.as_deref(), Some("Docs"));
            assert!(links[0].icon.is_none());
        }
        other => panic!("expected items, got {:?}", other),
    }
}

#[test]
fn flag_with_text_is_a_schema_mismatch() {
    assert_eq!(Parser::new().parse("darkmode: sometimes\n").unwrap_err(), ParseError::SchemaMismatch);
}
