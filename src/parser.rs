//! The tolerant schema: how a YAML tree becomes a [`Portfolio`]. Missing
//! keys and null values are absences, never errors; a section's `content`
//! is a list of items, a text, or missing, and any other shape is refused.
use vstd::prelude::*;

use crate::models::{
    opt_view, AdditionalLink, ContentItem, ContentSection, ContentValue, Portfolio,
};
use crate::yaml::{load_document, yaml_document, YamlValue};

verus! {

/// Why a document could not be loaded.
#[derive(Debug, Clone, PartialEq, Eq)]
pub enum ParseError {
    /// The text is not well-formed YAML; the message gives the location.
    Syntax(String),
    /// A value has a shape the schema does not allow.
    SchemaMismatch,
}

/// Whether a mapping key is the string `key`.
pub open spec fn is_key(k: YamlValue, key: Seq<char>) -> bool {
    match k {
        YamlValue::Str(s) => s@ == key,
        _ => false,
    }
}

/// The value of the first entry whose key is the string `key`.
pub open spec fn entry(m: Seq<(YamlValue, YamlValue)>, key: Seq<char>) -> Option<YamlValue>
    decreases m.len(),
{
    if m.len() == 0 {
        None
    } else if is_key(m[0].0, key) {
        Some(m[0].1)
    } else {
        entry(m.drop_first(), key)
    }
}

/// The text of a scalar: a string, a number as written, or a boolean.
pub open spec fn scalar_text(v: YamlValue) -> Option<Seq<char>> {
    match v {
        YamlValue::Str(s) => Some(s@),
        YamlValue::Number(n) => Some(n@),
        YamlValue::Bool(b) => Some(if b { "true"@ } else { "false"@ }),
        _ => None,
    }
}

/// A text field may be missing, null, or a scalar.
pub open spec fn text_conforms(v: Option<YamlValue>) -> bool {
    match v {
        None => true,
        Some(YamlValue::Null) => true,
        Some(x) => scalar_text(x) is Some,
    }
}

/// The text a text field holds, if any.
pub open spec fn text_value(v: Option<YamlValue>) -> Option<Seq<char>> {
    match v {
        None => None,
        Some(YamlValue::Null) => None,
        Some(x) => scalar_text(x),
    }
}

/// A flag may be missing, null, or a boolean.
pub open spec fn flag_conforms(v: Option<YamlValue>) -> bool {
    match v {
        None => true,
        Some(YamlValue::Null) => true,
        Some(YamlValue::Bool(_)) => true,
        _ => false,
    }
}

/// The boolean a flag holds, if any.
pub open spec fn flag_value(v: Option<YamlValue>) -> Option<bool> {
    match v {
        Some(YamlValue::Bool(b)) => Some(b),
        _ => None,
    }
}

/// Whether the text field `key` of a mapping conforms.
pub open spec fn field_ok(m: Seq<(YamlValue, YamlValue)>, key: Seq<char>) -> bool {
    text_conforms(entry(m, key))
}

/// The text that the field `key` of a mapping holds.
pub open spec fn field(m: Seq<(YamlValue, YamlValue)>, key: Seq<char>) -> Option<Seq<char>> {
    text_value(entry(m, key))
}

pub open spec fn link_conforms(v: YamlValue) -> bool {
    match v {
        YamlValue::Mapping(m) => field_ok(m@, "title"@) && field_ok(m@, "icon"@) && field_ok(
            m@,
            "url"@,
        ),
        _ => false,
    }
}

pub open spec fn link_decoded(v: YamlValue, l: AdditionalLink) -> bool {
    match v {
        YamlValue::Mapping(m) => {
            &&& opt_view(l.title) == field(m@, "title"@)
            &&& opt_view(l.icon) == field(m@, "icon"@)
            &&& opt_view(l.url) == field(m@, "url"@)
        },
        _ => false,
    }
}

/// A link list may be missing, null, or a sequence of link mappings.
pub open spec fn links_conform(v: Option<YamlValue>) -> bool {
    match v {
        None => true,
        Some(YamlValue::Null) => true,
        Some(YamlValue::Sequence(s)) => forall|i: int|
            0 <= i < s@.len() ==> link_conforms(#[trigger] s@[i]),
        _ => false,
    }
}

pub open spec fn links_decoded(v: Option<YamlValue>, o: Option<Vec<AdditionalLink>>) -> bool {
    match v {
        Some(YamlValue::Sequence(s)) => match o {
            Some(ls) => ls@.len() == s@.len() && forall|i: int|
                0 <= i < s@.len() ==> link_decoded(#[trigger] s@[i], ls@[i]),
            None => false,
        },
        _ => o is None,
    }
}

/// An item is a string (taken as its title) or a mapping of item fields.
pub open spec fn item_conforms(v: YamlValue) -> bool {
    match v {
        YamlValue::Str(_) => true,
        YamlValue::Mapping(m) => {
            &&& field_ok(m@, "layout"@)
            &&& field_ok(m@, "title"@)
            &&& field_ok(m@, "sub_title"@)
            &&& field_ok(m@, "caption"@)
            &&& field_ok(m@, "icon"@)
            &&& field_ok(m@, "url"@)
            &&& field_ok(m@, "quote"@)
            &&& field_ok(m@, "description"@)
            &&& field_ok(m@, "link"@)
            &&& links_conform(entry(m@, "additional_links"@))
        },
        _ => false,
    }
}

pub open spec fn item_decoded(v: YamlValue, it: ContentItem) -> bool {
    match v {
        YamlValue::Str(s) => {
            &&& opt_view(it.title) == Some(s@)
            &&& it.layout is None
            &&& it.sub_title is None
            &&& it.caption is None
            &&& it.icon is None
            &&& it.url is None
            &&& it.quote is None
            &&& it.description is None
            &&& it.link is None
            &&& it.additional_links is None
        },
        YamlValue::Mapping(m) => {
            &&& opt_view(it.layout) == field(m@, "layout"@)
            &&& opt_view(it.title) == field(m@, "title"@)
            &&& opt_view(it.sub_title) == field(m@, "sub_title"@)
            &&& opt_view(it.caption) == field(m@, "caption"@)
            &&& opt_view(it.icon) == field(m@, "icon"@)
            &&& opt_view(it.url) == field(m@, "url"@)
            &&& opt_view(it.quote) == field(m@, "quote"@)
            &&& opt_view(it.description) == field(m@, "description"@)
            &&& opt_view(it.link) == field(m@, "link"@)
            &&& links_decoded(entry(m@, "additional_links"@), it.additional_links)
        },
        _ => false,
    }
}

/// A section's content is missing, a string, or a sequence of items; any
/// other shape, null and mappings included, is refused.
pub open spec fn content_conforms(v: Option<YamlValue>) -> bool {
    match v {
        None => true,
        Some(YamlValue::Str(_)) => true,
        Some(YamlValue::Sequence(s)) => forall|i: int|
            0 <= i < s@.len() ==> item_conforms(#[trigger] s@[i]),
        _ => false,
    }
}

pub open spec fn content_decoded(v: Option<YamlValue>, c: ContentValue) -> bool {
    match v {
        None => c is Empty,
        Some(YamlValue::Str(s)) => match c {
            ContentValue::Text(t) => t@ == s@,
            _ => false,
        },
        Some(YamlValue::Sequence(s)) => match c {
            ContentValue::Items(items) => items@.len() == s@.len() && forall|i: int|
                0 <= i < s@.len() ==> item_decoded(#[trigger] s@[i], items@[i]),
            _ => false,
        },
        _ => false,
    }
}

pub open spec fn section_conforms(v: YamlValue) -> bool {
    match v {
        YamlValue::Mapping(m) => {
            &&& field_ok(m@, "title"@)
            &&& field_ok(m@, "layout"@)
            &&& content_conforms(entry(m@, "content"@))
        },
        _ => false,
    }
}

pub open spec fn section_decoded(v: YamlValue, s: ContentSection) -> bool {
    match v {
        YamlValue::Mapping(m) => {
            &&& opt_view(s.title) == field(m@, "title"@)
            &&& opt_view(s.layout) == field(m@, "layout"@)
            &&& content_decoded(entry(m@, "content"@), s.content)
        },
        _ => false,
    }
}

/// The section list may be missing, null, or a sequence of sections.
pub open spec fn sections_conform(v: Option<YamlValue>) -> bool {
    match v {
        None => true,
        Some(YamlValue::Null) => true,
        Some(YamlValue::Sequence(s)) => forall|i: int|
            0 <= i < s@.len() ==> section_conforms(#[trigger] s@[i]),
        _ => false,
    }
}

pub open spec fn sections_decoded(v: Option<YamlValue>, o: Option<Vec<ContentSection>>) -> bool {
    match v {
        Some(YamlValue::Sequence(s)) => match o {
            Some(ss) => ss@.len() == s@.len() && forall|i: int|
                0 <= i < s@.len() ==> section_decoded(#[trigger] s@[i], ss@[i]),
            None => false,
        },
        _ => o is None,
    }
}

/// The document must be a mapping whose known keys hold values of the
/// allowed shapes; unknown keys are ignored.
pub open spec fn portfolio_conforms(doc: YamlValue) -> bool {
    match doc {
        YamlValue::Mapping(m) => {
            &&& field_ok(m@, "repository"@)
            &&& field_ok(m@, "favicon"@)
            &&& field_ok(m@, "version"@)
            &&& field_ok(m@, "name"@)
            &&& field_ok(m@, "title"@)
            &&& field_ok(m@, "email"@)
            &&& field_ok(m@, "website"@)
            &&& flag_conforms(entry(m@, "darkmode"@))
            &&& field_ok(m@, "twitter_username"@)
            &&& field_ok(m@, "github_username"@)
            &&& field_ok(m@, "discord_username"@)
            &&& field_ok(m@, "stackoverflow_username"@)
            &&& field_ok(m@, "linkedin_username"@)
            &&& links_conform(entry(m@, "additional_links"@))
            &&& field_ok(m@, "about_profile_image"@)
            &&& field_ok(m@, "about_content"@)
            &&& sections_conform(entry(m@, "content"@))
        },
        _ => false,
    }
}

pub open spec fn portfolio_decoded(doc: YamlValue, p: Portfolio) -> bool {
    match doc {
        YamlValue::Mapping(m) => {
            &&& opt_view(p.repository) == field(m@, "repository"@)
            &&& opt_view(p.favicon) == field(m@, "favicon"@)
            &&& opt_view(p.version) == field(m@, "version"@)
            &&& opt_view(p.name) == field(m@, "name"@)
            &&& opt_view(p.title) == field(m@, "title"@)
            &&& opt_view(p.email) == field(m@, "email"@)
            &&& opt_view(p.website) == field(m@, "website"@)
            &&& p.darkmode == flag_value(entry(m@, "darkmode"@))
            &&& opt_view(p.twitter_username) == field(m@, "twitter_username"@)
            &&& opt_view(p.github_username) == field(m@, "github_username"@)
            &&& opt_view(p.discord_username) == field(m@, "discord_username"@)
            &&& opt_view(p.stackoverflow_username) == field(m@, "stackoverflow_username"@)
            &&& opt_view(p.linkedin_username) == field(m@, "linkedin_username"@)
            &&& links_decoded(entry(m@, "additional_links"@), p.additional_links)
            &&& opt_view(p.about_profile_image) == field(m@, "about_profile_image"@)
            &&& opt_view(p.about_content) == field(m@, "about_content"@)
            &&& sections_decoded(entry(m@, "content"@), p.content)
        },
        _ => false,
    }
}

/// The value of the first entry whose key is the string `key`.
fn entry_of<'a>(m: &'a Vec<(YamlValue, YamlValue)>, key: &str) -> (r: Option<&'a YamlValue>)
    ensures
        match r {
            Some(v) => entry(m@, key@) == Some(*v),
            None => entry(m@, key@) is None,
        },
{
    let wanted = String::from_str(key);
    let mut i: usize = 0;
    assert(m@.skip(0) =~= m@);
    while i < m.len()
        invariant
            i <= m@.len(),
            wanted@ == key@,
            entry(m@, key@) == entry(m@.skip(i as int), key@),
        decreases m.len() - i,
    {
        let ghost rest = m@.skip(i as int);
        assert(rest.drop_first() =~= m@.skip(i + 1));
        assert(rest[0] == m@[i as int]);
        let hit = match &m[i].0 {
            YamlValue::Str(s) => *s == wanted,
            _ => false,
        };
        if hit {
            return Some(&m[i].1);
        }
        i += 1;
    }
    None
}

/// The text of a scalar node.
fn scalar_of(v: &YamlValue) -> (r: Option<String>)
    ensures
        opt_view(r) == scalar_text(*v),
{
    match v {
        YamlValue::Str(s) => Some(s.clone()),
        YamlValue::Number(n) => Some(n.clone()),
        YamlValue::Bool(b) => {
            if *b {
                Some(String::from_str("true"))
            } else {
                Some(String::from_str("false"))
            }
        },
        _ => None,
    }
}

/// The text field `key` of a mapping.
fn text_at(m: &Vec<(YamlValue, YamlValue)>, key: &str) -> (r: Result<Option<String>, ParseError>)
    ensures
        r is Ok <==> field_ok(m@, key@),
        r matches Ok(o) ==> opt_view(o) == field(m@, key@),
        r matches Err(e) ==> e is SchemaMismatch,
{
    match entry_of(m, key) {
        None => Ok(None),
        Some(YamlValue::Null) => Ok(None),
        Some(v) => match scalar_of(v) {
            Some(s) => Ok(Some(s)),
            None => Err(ParseError::SchemaMismatch),
        },
    }
}

/// The flag `key` of a mapping.
fn flag_at(m: &Vec<(YamlValue, YamlValue)>, key: &str) -> (r: Result<Option<bool>, ParseError>)
    ensures
        r is Ok <==> flag_conforms(entry(m@, key@)),
        r matches Ok(o) ==> o == flag_value(entry(m@, key@)),
        r matches Err(e) ==> e is SchemaMismatch,
{
    match entry_of(m, key) {
        None => Ok(None),
        Some(YamlValue::Null) => Ok(None),
        Some(YamlValue::Bool(b)) => Ok(Some(*b)),
        Some(_) => Err(ParseError::SchemaMismatch),
    }
}

fn decode_link(v: &YamlValue) -> (r: Result<AdditionalLink, ParseError>)
    ensures
        r is Ok <==> link_conforms(*v),
        r matches Ok(l) ==> link_decoded(*v, l),
        r matches Err(e) ==> e is SchemaMismatch,
{
    match v {
        YamlValue::Mapping(m) => {
            let title = match text_at(m, "title") {
                Ok(x) => x,
                Err(e) => return Err(e),
            };
            let icon = match text_at(m, "icon") {
                Ok(x) => x,
                Err(e) => return Err(e),
            };
            let url = match text_at(m, "url") {
                Ok(x) => x,
                Err(e) => return Err(e),
            };
            Ok(AdditionalLink { title, icon, url })
        },
        _ => Err(ParseError::SchemaMismatch),
    }
}

/// The link list `key` of a mapping.
fn links_at(m: &Vec<(YamlValue, YamlValue)>, key: &str) -> (r: Result<
    Option<Vec<AdditionalLink>>,
    ParseError,
>)
    ensures
        r is Ok <==> links_conform(entry(m@, key@)),
        r matches Ok(o) ==> links_decoded(entry(m@, key@), o),
        r matches Err(e) ==> e is SchemaMismatch,
{
    match entry_of(m, key) {
        None => Ok(None),
        Some(YamlValue::Null) => Ok(None),
        Some(YamlValue::Sequence(s)) => {
            let mut out: Vec<AdditionalLink> = Vec::new();
            let mut i: usize = 0;
            while i < s.len()
                invariant
                    entry(m@, key@) == Some(YamlValue::Sequence(*s)),
                    i <= s@.len(),
                    out@.len() == i,
                    forall|k: int| 0 <= k < i ==> link_conforms(#[trigger] s@[k]),
                    forall|k: int| 0 <= k < i ==> link_decoded(#[trigger] s@[k], out@[k]),
                decreases s.len() - i,
            {
                match decode_link(&s[i]) {
                    Ok(l) => out.push(l),
                    Err(e) => {
                        assert(!link_conforms((*s)@[i as int]));
                        let ghost whole = Some(YamlValue::Sequence(*s));
                        assert(whole->Some_0->Sequence_0 == *s);
                        return Err(e);
                    },
                }
                i += 1;
            }
            Ok(Some(out))
        },
        Some(_) => Err(ParseError::SchemaMismatch),
    }
}

fn decode_item(v: &YamlValue) -> (r: Result<ContentItem, ParseError>)
    ensures
        r is Ok <==> item_conforms(*v),
        r matches Ok(it) ==> item_decoded(*v, it),
        r matches Err(e) ==> e is SchemaMismatch,
{
    match v {
        YamlValue::Str(s) => Ok(
            ContentItem {
                layout: None,
                title: Some(s.clone()),
                sub_title: None,
                caption: None,
                icon: None,
                url: None,
                quote: None,
                description: None,
                link: None,
                additional_links: None,
            },
        ),
        YamlValue::Mapping(m) => {
            let layout = match text_at(m, "layout") {
                Ok(x) => x,
                Err(e) => return Err(e),
            };
            let title = match text_at(m, "title") {
                Ok(x) => x,
                Err(e) => return Err(e),
            };
            let sub_title = match text_at(m, "sub_title") {
                Ok(x) => x,
                Err(e) => return Err(e),
            };
            let caption = match text_at(m, "caption") {
                Ok(x) => x,
                Err(e) => return Err(e),
            };
            let icon = match text_at(m, "icon") {
                Ok(x) => x,
                Err(e) => return Err(e),
            };
            let url = match text_at(m, "url") {
                Ok(x) => x,
                Err(e) => return Err(e),
            };
            let quote = match text_at(m, "quote") {
                Ok(x) => x,
                Err(e) => return Err(e),
            };
            let description = match text_at(m, "description") {
                Ok(x) => x,
                Err(e) => return Err(e),
            };
            let link = match text_at(m, "link") {
                Ok(x) => x,
                Err(e) => return Err(e),
            };
            let additional_links = match links_at(m, "additional_links") {
                Ok(x) => x,
                Err(e) => return Err(e),
            };
            Ok(
                ContentItem {
                    layout,
                    title,
                    sub_title,
                    caption,
                    icon,
                    url,
                    quote,
                    description,
                    link,
                    additional_links,
                },
            )
        },
        _ => Err(ParseError::SchemaMismatch),
    }
}

/// The content value `key` of a mapping: the one place where the shape of
/// the value picks the variant.
fn content_at(m: &Vec<(YamlValue, YamlValue)>, key: &str) -> (r: Result<ContentValue, ParseError>)
    ensures
        r is Ok <==> content_conforms(entry(m@, key@)),
        r matches Ok(c) ==> content_decoded(entry(m@, key@), c),
        r matches Err(e) ==> e is SchemaMismatch,
{
    match entry_of(m, key) {
        None => Ok(ContentValue::Empty),
        Some(YamlValue::Str(s)) => Ok(ContentValue::Text(s.clone())),
        Some(YamlValue::Sequence(s)) => {
            let mut out: Vec<ContentItem> = Vec::new();
            let mut i: usize = 0;
            while i < s.len()
                invariant
                    entry(m@, key@) == Some(YamlValue::Sequence(*s)),
                    i <= s@.len(),
                    out@.len() == i,
                    forall|k: int| 0 <= k < i ==> item_conforms(#[trigger] s@[k]),
                    forall|k: int| 0 <= k < i ==> item_decoded(#[trigger] s@[k], out@[k]),
                decreases s.len() - i,
            {
                match decode_item(&s[i]) {
                    Ok(it) => out.push(it),
                    Err(e) => {
                        assert(!item_conforms((*s)@[i as int]));
                        let ghost whole = Some(YamlValue::Sequence(*s));
                        assert(whole->Some_0->Sequence_0 == *s);
                        return Err(e);
                    },
                }
                i += 1;
            }
            Ok(ContentValue::Items(out))
        },
        Some(_) => Err(ParseError::SchemaMismatch),
    }
}

fn decode_section(v: &YamlValue) -> (r: Result<ContentSection, ParseError>)
    ensures
        r is Ok <==> section_conforms(*v),
        r matches Ok(s) ==> section_decoded(*v, s),
        r matches Err(e) ==> e is SchemaMismatch,
{
    match v {
        YamlValue::Mapping(m) => {
            let title = match text_at(m, "title") {
                Ok(x) => x,
                Err(e) => return Err(e),
            };
            let layout = match text_at(m, "layout") {
                Ok(x) => x,
                Err(e) => return Err(e),
            };
            let content = match content_at(m, "content") {
                Ok(x) => x,
                Err(e) => return Err(e),
            };
            Ok(ContentSection { title, layout, content })
        },
        _ => Err(ParseError::SchemaMismatch),
    }
}

/// The section list `key` of a mapping.
fn sections_at(m: &Vec<(YamlValue, YamlValue)>, key: &str) -> (r: Result<
    Option<Vec<ContentSection>>,
    ParseError,
>)
    ensures
        r is Ok <==> sections_conform(entry(m@, key@)),
        r matches Ok(o) ==> sections_decoded(entry(m@, key@), o),
        r matches Err(e) ==> e is SchemaMismatch,
{
    match entry_of(m, key) {
        None => Ok(None),
        Some(YamlValue::Null) => Ok(None),
        Some(YamlValue::Sequence(s)) => {
            let mut out: Vec<ContentSection> = Vec::new();
            let mut i: usize = 0;
            while i < s.len()
                invariant
                    entry(m@, key@) == Some(YamlValue::Sequence(*s)),
                    i <= s@.len(),
                    out@.len() == i,
                    forall|k: int| 0 <= k < i ==> section_conforms(#[trigger] s@[k]),
                    forall|k: int| 0 <= k < i ==> section_decoded(#[trigger] s@[k], out@[k]),
                decreases s.len() - i,
            {
                match decode_section(&s[i]) {
                    Ok(sec) => out.push(sec),
                    Err(e) => {
                        assert(!section_conforms((*s)@[i as int]));
                        let ghost whole = Some(YamlValue::Sequence(*s));
                        assert(whole->Some_0->Sequence_0 == *s);
                        return Err(e);
                    },
                }
                i += 1;
            }
            Ok(Some(out))
        },
        Some(_) => Err(ParseError::SchemaMismatch),
    }
}

/// Reads a document tree against the schema.
pub fn decode_portfolio(doc: &YamlValue) -> (r: Result<Portfolio, ParseError>)
    ensures
        r is Ok <==> portfolio_conforms(*doc),
        r matches Ok(p) ==> portfolio_decoded(*doc, p),
        r matches Err(e) ==> e is SchemaMismatch,
{
    match doc {
        YamlValue::Mapping(m) => {
            let repository = match text_at(m, "repository") {
                Ok(x) => x,
                Err(e) => return Err(e),
            };
            let favicon = match text_at(m, "favicon") {
                Ok(x) => x,
                Err(e) => return Err(e),
            };
            let version = match text_at(m, "version") {
                Ok(x) => x,
                Err(e) => return Err(e),
            };
            let name = match text_at(m, "name") {
                Ok(x) => x,
                Err(e) => return Err(e),
            };
            let title = match text_at(m, "title") {
                Ok(x) => x,
                Err(e) => return Err(e),
            };
            let email = match text_at(m, "email") {
                Ok(x) => x,
                Err(e) => return Err(e),
            };
            let website = match text_at(m, "website") {
                Ok(x) => x,
                Err(e) => return Err(e),
            };
            let darkmode = match flag_at(m, "darkmode") {
                Ok(x) => x,
                Err(e) => return Err(e),
            };
            let twitter_username = match text_at(m, "twitter_username") {
                Ok(x) => x,
                Err(e) => return Err(e),
            };
            let github_username = match text_at(m, "github_username") {
                Ok(x) => x,
                Err(e) => return Err(e),
            };
            let discord_username = match text_at(m, "discord_username") {
                Ok(x) => x,
                Err(e) => return Err(e),
            };
            let stackoverflow_username = match text_at(m, "stackoverflow_username") {
                Ok(x) => x,
                Err(e) => return Err(e),
            };
            let linkedin_username = match text_at(m, "linkedin_username") {
                Ok(x) => x,
                Err(e) => return Err(e),
            };
            let additional_links = match links_at(m, "additional_links") {
                Ok(x) => x,
                Err(e) => return Err(e),
            };
            let about_profile_image = match text_at(m, "about_profile_image") {
                Ok(x) => x,
                Err(e) => return Err(e),
            };
            let about_content = match text_at(m, "about_content") {
                Ok(x) => x,
                Err(e) => return Err(e),
            };
            let content = match sections_at(m, "content") {
                Ok(x) => x,
                Err(e) => return Err(e),
            };
            Ok(
                Portfolio {
                    repository,
                    favicon,
                    version,
                    name,
                    title,
                    email,
                    website,
                    darkmode,
                    twitter_username,
                    github_username,
                    discord_username,
                    stackoverflow_username,
                    linkedin_username,
                    additional_links,
                    about_profile_image,
                    about_content,
                    content,
                },
            )
        },
        _ => Err(ParseError::SchemaMismatch),
    }
}

/// Reads portfolio documents.
pub struct Parser;

impl Parser {
    pub fn new() -> (r: Self) {
        Parser
    }

    /// Parses a YAML text into a portfolio: a syntax error where the text
    /// is not YAML, a schema mismatch where the tree breaks the schema.
    pub fn parse(&self, content: &str) -> (r: Result<Portfolio, ParseError>)
        ensures
            match yaml_document(content@) {
                None => r matches Err(ParseError::Syntax(_)),
                Some(doc) => match r {
                    Ok(p) => portfolio_conforms(doc) && portfolio_decoded(doc, p),
                    Err(e) => !portfolio_conforms(doc) && e is SchemaMismatch,
                },
            },
    {
        match load_document(content) {
            Ok(doc) => decode_portfolio(&doc),
            Err(message) => Err(ParseError::Syntax(message)),
        }
    }
}

} // verus!
