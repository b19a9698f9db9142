use portfolio_viewer::formatter::{Formatter, DEFAULT_NAME, DEFAULT_TITLE};
use portfolio_viewer::models::{ContentItem, ContentSection, ContentValue, Portfolio};
use portfolio_viewer::parser::Parser;

fn empty_portfolio() -> Portfolio {
    Portfolio {
        repository: None,
        favicon: None,
        version: None,
        name: None,
        title: None,
        email: None,
        website: None,
        darkmode: None,
        twitter_username: None,
        github_username: None,
        discord_username: None,
        stackoverflow_username: None,
        linkedin_username: None,
        additional_links: None,
        about_profile_image: None,
        about_content: None,
        content: None,
    }
}

fn empty_item() -> ContentItem {
    ContentItem {
        layout: None,
        title: None,
        sub_title: None,
        caption: None,
        icon: None,
        url: None,
        quote: None,
        description: None,
        link: None,
        additional_links: None,
    }
}

#[test]
fn all_missing_fields_project_to_defaults() {
    let out = Formatter::new().format(&empty_portfolio());
    assert_eq!(out.name, DEFAULT_NAME);
    assert_eq!(out.name, "Pokeylooted");
    assert_eq!(out.title, DEFAULT_TITLE);
    assert_eq!(out.title, "Developer");
    assert_eq!(out.about, "");
    assert!(out.content_sections.is_empty());
    assert!(out.social.is_empty());
}

#[test]
fn social_entries_follow_the_fixed_platform_order() {
    let p = Parser::new()
        .parse("github_username: g\nname: N\nemail: a@b.com\n")
        .unwrap();
    let out = Formatter::new().format(&p);
    assert_eq!(out.social.len(), 2);
    assert_eq!(out.social[0].platform, "Email");
    assert_eq!(out.social[0].url, "mailto:a@b.com");
    assert_eq!(out.social[0].username, "a@b.com");
    assert_eq!(out.social[1].platform, "GitHub");
    assert_eq!(out.social[1].url, "https://github.com/g");
    assert_eq!(out.social[1].username, "g");
}

#[test]
fn every_platform_gets_its_url_scheme() {
    let mut p = empty_portfolio();
    p.discord_username = Some("d".to_string());
    p.linkedin_username = Some("l".to_string());
    p.twitter_username = Some("t".to_string());
    p.website = Some("https://w.io".to_string());
    let out = Formatter::new().format(&p);
    let urls: Vec<&str> = out.social.iter().map(|s| s.url.as_str()).collect();
    assert_eq!(
        urls,
        vec!["https://w.io", "https://twitter.com/t", "https://linkedin.com/in/l", "https://discord.com/users/d"]
    );
    assert_eq!(out.social_index("Twitter"), Some(1));
    assert_eq!(out.social_index("Email"), None);
}

#[test]
fn text_section_gives_one_item_with_sanitized_description() {
    let mut p = empty_portfolio();
    p.content = Some(vec![ContentSection {
        title: Some("About".to_string()),
        layout: Some("text".to_string()),
        content: ContentValue::Text("I use <mark>Rust</mark>".to_string()),
    }]);
    let out = Formatter::new().format(&p);
    let s = &out.content_sections[0];
    assert_eq!(s.title, "About");
    assert_eq!(s.layout, "text");
    assert_eq!(s.items.len(), 1);
    assert_eq!(s.items[0].description, "I use Rust");
    assert_eq!(s.items[0].title, "");
}

#[test]
fn empty_section_gives_no_items_and_sections_keep_order() {
    let mut p = empty_portfolio();
    p.content = Some(vec![
        ContentSection { title: Some("B".to_string()), layout: None, content: ContentValue::Empty },
        ContentSection { title: None, layout: None, content: ContentValue::default() },
    ]);
    let out = Formatter::new().format(&p);
    assert_eq!(out.content_sections.len(), 2);
    assert_eq!(out.content_sections[0].title, "B");
    assert_eq!(out.content_sections[1].title, "");
    assert_eq!(out.content_sections[1].layout, "");
    assert!(out.content_sections[0].items.is_empty());
}

#[test]
fn items_without_content_are_still_emitted() {
    let mut quoted = empty_item();
    quoted.quote = Some("stay   curious".to_string());
    quoted.url = Some("https://u".to_string());
    let mut p = empty_portfolio();
    p.about_content = Some("hello ![x](/i.png) world".to_string());
    p.content = Some(vec![ContentSection {
        title: Some("List".to_string()),
        layout: Some("list".to_string()),
        content: ContentValue::Items(vec![empty_item(), quoted]),
    }]);
    let out = Formatter::with_max_width(40).format(&p);
    assert_eq!(out.about, "hello  world");
    let items = &out.content_sections[0].items;
    assert_eq!(items.len(), 2);
    assert_eq!(items[0].body_text(), "");
    assert_eq!(items[1].quote, "stay   curious");
    assert_eq!(items[1].url, "https://u");
    assert_eq!(items[1].body_text(), "> stay   curious");
}

#[test]
fn subtitle_prefers_sub_title_over_caption() {
    let mut item = empty_item();
    item.caption = Some("cap".to_string());
    let mut p = empty_portfolio();
    let mut both = empty_item();
    both.caption = Some("cap".to_string());
    both.sub_title = Some("sub".to_string());
    both.description = Some("desc".to_string());
    p.content = Some(vec![ContentSection {
        title: None,
        layout: None,
        content: ContentValue::Items(vec![item, both]),
    }]);
    let out = Formatter::new().format(&p);
    let items = &out.content_sections[0].items;
    assert_eq!(items[0].subtitle_text(), "cap");
    assert_eq!(items[1].subtitle_text(), "sub");
    assert_eq!(items[1].body_text(), "desc");
}
