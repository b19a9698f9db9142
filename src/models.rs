//! The portfolio document as written by hand: every field but the shape
//! itself may be missing.
use vstd::prelude::*;

verus! {

/// The view of an optional string.
pub open spec fn opt_view(o: Option<String>) -> Option<Seq<char>> {
    match o {
        Some(s) => Some(s@),
        None => None,
    }
}

/// The view of an optional string, with the empty text for a missing one.
pub open spec fn or_empty(o: Option<String>) -> Seq<char> {
    match o {
        Some(s) => s@,
        None => Seq::empty(),
    }
}

/// The whole document.
#[derive(Debug, Clone)]
pub struct Portfolio {
    pub repository: Option<String>,
    pub favicon: Option<String>,
    pub version: Option<String>,
    pub name: Option<String>,
    pub title: Option<String>,
    pub email: Option<String>,
    pub website: Option<String>,
    pub darkmode: Option<bool>,
    pub twitter_username: Option<String>,
    pub github_username: Option<String>,
    pub discord_username: Option<String>,
    pub stackoverflow_username: Option<String>,
    pub linkedin_username: Option<String>,
    pub additional_links: Option<Vec<AdditionalLink>>,
    pub about_profile_image: Option<String>,
    pub about_content: Option<String>,
    pub content: Option<Vec<ContentSection>>,
}

/// A link beyond the known social platforms.
#[derive(Debug, Clone)]
pub struct AdditionalLink {
    pub title: Option<String>,
    pub icon: Option<String>,
    pub url: Option<String>,
}

/// A named, separately navigable block of the document.
#[derive(Debug, Clone)]
pub struct ContentSection {
    pub title: Option<String>,
    /// A layout hint: "list", "text", or anything else for the default.
    pub layout: Option<String>,
    pub content: ContentValue,
}

/// What a section holds: a list of items, one free text, or nothing when
/// the key is missing.
#[derive(Debug, Clone)]
pub enum ContentValue {
    Items(Vec<ContentItem>),
    Text(String),
    Empty,
}

impl Default for ContentValue {
    fn default() -> (r: Self)
        ensures
            r is Empty,
    {
        ContentValue::Empty
    }
}

/// One entry of a list section; any of its fields may be missing.
#[derive(Debug, Clone)]
pub struct ContentItem {
    pub layout: Option<String>,
    pub title: Option<String>,
    pub sub_title: Option<String>,
    pub caption: Option<String>,
    pub icon: Option<String>,
    pub url: Option<String>,
    pub quote: Option<String>,
    pub description: Option<String>,
    pub link: Option<String>,
    pub additional_links: Option<Vec<AdditionalLink>>,
}

} // verus!
