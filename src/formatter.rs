//! The projection of a loaded document into what is displayed: defaults
//! filled in, free text sanitized, sections kept in document order and the
//! social links built in a fixed platform order.
use vstd::prelude::*;

use crate::models::{or_empty, ContentItem, ContentSection, ContentValue, Portfolio};
use crate::sanitize::{sanitize, sanitized};

verus! {

/// The name shown when the document gives none.
pub const DEFAULT_NAME: &'static str = "Pokeylooted";

/// The title shown when the document gives none.
pub const DEFAULT_TITLE: &'static str = "Developer";

/// The column width a formatter wraps at unless told otherwise.
pub const DEFAULT_MAX_WIDTH: usize = 100;

/// The document as displayed.
#[derive(Debug, Clone)]
pub struct FormattedPortfolio {
    pub name: String,
    pub title: String,
    pub about: String,
    pub content_sections: Vec<FormattedContentSection>,
    pub social: Vec<FormattedSocial>,
}

/// A section as displayed.
#[derive(Debug, Clone)]
pub struct FormattedContentSection {
    pub title: String,
    pub layout: String,
    pub items: Vec<FormattedContentItem>,
}

/// An item as displayed; a missing field is the empty text.
#[derive(Debug, Clone)]
pub struct FormattedContentItem {
    pub title: String,
    pub sub_title: String,
    pub caption: String,
    pub description: String,
    pub quote: String,
    pub url: String,
    pub link: String,
}

/// A link to the owner on one platform.
#[derive(Debug, Clone)]
pub struct FormattedSocial {
    pub platform: String,
    pub url: String,
    pub username: String,
}

/// Each displayed field of an item: text fields sanitized, the others
/// passed through, missing ones empty.
pub open spec fn item_shown(raw: ContentItem, out: FormattedContentItem, width: nat) -> bool {
    &&& out.title@ == or_empty(raw.title)
    &&& out.sub_title@ == or_empty(raw.sub_title)
    &&& out.caption@ == or_empty(raw.caption)
    &&& out.description@ == sanitized(or_empty(raw.description), width)
    &&& out.quote@ == sanitized(or_empty(raw.quote), width)
    &&& out.url@ == or_empty(raw.url)
    &&& out.link@ == or_empty(raw.link)
}

/// The single item that stands for a free-text section.
pub open spec fn text_item_shown(text: Seq<char>, out: FormattedContentItem, width: nat) -> bool {
    &&& out.description@ == sanitized(text, width)
    &&& out.title@.len() == 0
    &&& out.sub_title@.len() == 0
    &&& out.caption@.len() == 0
    &&& out.quote@.len() == 0
    &&& out.url@.len() == 0
    &&& out.link@.len() == 0
}

/// A section: one item per listed item, one for a text, none when empty.
pub open spec fn section_shown(raw: ContentSection, out: FormattedContentSection, width: nat) -> bool {
    &&& out.title@ == or_empty(raw.title)
    &&& out.layout@ == or_empty(raw.layout)
    &&& match raw.content {
        ContentValue::Items(items) => {
            &&& out.items@.len() == items@.len()
            &&& forall|i: int|
                0 <= i < items@.len() ==> item_shown(
                    #[trigger] items@[i],
                    out.items@[i],
                    width,
                )
        },
        ContentValue::Text(t) => out.items@.len() == 1 && text_item_shown(t@, out.items@[0], width),
        ContentValue::Empty => out.items@.len() == 0,
    }
}

/// One social entry (platform, url, username) where the field is present.
pub open spec fn social_entry(field: Option<String>, platform: Seq<char>, prefix: Seq<char>) -> Seq<
    (Seq<char>, Seq<char>, Seq<char>),
> {
    match field {
        Some(v) => seq![(platform, prefix + v@, v@)],
        None => Seq::empty(),
    }
}

/// The social entries of a document, in the fixed platform order.
pub open spec fn social_of(p: Portfolio) -> Seq<(Seq<char>, Seq<char>, Seq<char>)> {
    social_entry(p.email, "Email"@, "mailto:"@) + social_entry(p.website, "Website"@, ""@)
        + social_entry(p.github_username, "GitHub"@, "https://github.com/"@) + social_entry(
        p.twitter_username,
        "Twitter"@,
        "https://twitter.com/"@,
    ) + social_entry(p.linkedin_username, "LinkedIn"@, "https://linkedin.com/in/"@)
        + social_entry(p.discord_username, "Discord"@, "https://discord.com/users/"@)
}

/// The (platform, url, username) views of displayed social entries.
pub open spec fn social_views(s: Seq<FormattedSocial>) -> Seq<(Seq<char>, Seq<char>, Seq<char>)> {
    s.map_values(|e: FormattedSocial| (e.platform@, e.url@, e.username@))
}

/// The sections of a document, none when the list is missing.
pub open spec fn sections_of(p: Portfolio) -> Seq<ContentSection> {
    match p.content {
        Some(v) => v@,
        None => Seq::empty(),
    }
}

/// The whole projection of a document at a column width.
pub open spec fn portfolio_shown(raw: Portfolio, out: FormattedPortfolio, width: nat) -> bool {
    &&& out.name@ == match raw.name {
        Some(n) => n@,
        None => DEFAULT_NAME@,
    }
    &&& out.title@ == match raw.title {
        Some(t) => t@,
        None => DEFAULT_TITLE@,
    }
    &&& out.about@ == match raw.about_content {
        Some(a) => sanitized(a@, width),
        None => Seq::empty(),
    }
    &&& out.content_sections@.len() == sections_of(raw).len()
    &&& forall|i: int|
        0 <= i < sections_of(raw).len() ==> section_shown(
            #[trigger] sections_of(raw)[i],
            out.content_sections@[i],
            width,
        )
    &&& social_views(out.social@) == social_of(raw)
}

/// A document in which every optional field is missing projects, at any
/// width, to the default name and title with an empty about text, no
/// sections and no social links.
pub proof fn lemma_missing_fields_project_to_defaults(
    raw: Portfolio,
    out: FormattedPortfolio,
    width: nat,
)
    requires
        raw.repository is None,
        raw.favicon is None,
        raw.version is None,
        raw.name is None,
        raw.title is None,
        raw.email is None,
        raw.website is None,
        raw.darkmode is None,
        raw.twitter_username is None,
        raw.github_username is None,
        raw.discord_username is None,
        raw.stackoverflow_username is None,
        raw.linkedin_username is None,
        raw.additional_links is None,
        raw.about_profile_image is None,
        raw.about_content is None,
        raw.content is None,
        portfolio_shown(raw, out, width),
    ensures
        out.name@ == DEFAULT_NAME@,
        out.title@ == DEFAULT_TITLE@,
        out.about@.len() == 0,
        out.content_sections@.len() == 0,
        out.social@.len() == 0,
{
    assert(social_of(raw) =~= Seq::empty());
    assert(social_views(out.social@).len() == out.social@.len());
}

/// The text of an optional field, empty when missing.
fn text_or_empty(o: &Option<String>) -> (r: String)
    ensures
        r@ == or_empty(*o),
{
    match o {
        Some(s) => s.clone(),
        None => String::new(),
    }
}

/// Appends the entry for one platform when its field is present.
fn push_social(
    entries: &mut Vec<FormattedSocial>,
    field: &Option<String>,
    platform: &str,
    prefix: &str,
)
    ensures
        social_views(final(entries)@) == social_views(old(entries)@) + social_entry(
            *field,
            platform@,
            prefix@,
        ),
{
    match field {
        Some(v) => {
            let mut url = String::from_str(prefix);
            url.append(v.as_str());
            let entry = FormattedSocial {
                platform: String::from_str(platform),
                url,
                username: v.clone(),
            };
            let ghost before = entries@;
            entries.push(entry);
            assert(social_views(entries@) =~= social_views(before) + social_entry(
                *field,
                platform@,
                prefix@,
            ));
        },
        None => {
            assert(social_views(entries@) =~= social_views(entries@) + social_entry(
                *field,
                platform@,
                prefix@,
            ));
        },
    }
}

impl FormattedContentItem {
    /// The line under the title: the sub-title, else the caption.
    pub fn subtitle_text(&self) -> (r: String)
        ensures
            r@ == if self.sub_title@.len() > 0 {
                self.sub_title@
            } else {
                self.caption@
            },
    {
        if self.sub_title.as_str().unicode_len() > 0 {
            self.sub_title.clone()
        } else {
            self.caption.clone()
        }
    }

    /// The body: the description, else the quote marked with "> ", else
    /// nothing.
    pub fn body_text(&self) -> (r: String)
        ensures
            r@ == if self.description@.len() > 0 {
                self.description@
            } else if self.quote@.len() > 0 {
                "> "@ + self.quote@
            } else {
                Seq::empty()
            },
    {
        if self.description.as_str().unicode_len() > 0 {
            self.description.clone()
        } else if self.quote.as_str().unicode_len() > 0 {
            let mut body = String::from_str("> ");
            body.append(self.quote.as_str());
            body
        } else {
            String::new()
        }
    }
}

impl FormattedPortfolio {
    /// The position of the first social entry on `platform`.
    pub fn social_index(&self, platform: &str) -> (r: Option<usize>)
        ensures
            match r {
                Some(i) => i < self.social@.len() && self.social@[i as int].platform@ == platform@
                    && forall|k: int|
                    0 <= k < i ==> (#[trigger] self.social@[k]).platform@ != platform@,
                None => forall|k: int|
                    0 <= k < self.social@.len() ==> (#[trigger] self.social@[k]).platform@
                        != platform@,
            },
    {
        let wanted = String::from_str(platform);
        let mut i: usize = 0;
        while i < self.social.len()
            invariant
                wanted@ == platform@,
                i <= self.social@.len(),
                forall|k: int| 0 <= k < i ==> (#[trigger] self.social@[k]).platform@ != platform@,
            decreases self.social.len() - i,
        {
            if self.social[i].platform == wanted {
                return Some(i);
            }
            i += 1;
        }
        None
    }
}

/// Formats documents for display at a column width.
pub struct Formatter {
    max_width: usize,
}

impl Formatter {
    /// The column width this formatter wraps at.
    pub closed spec fn width(&self) -> nat {
        self.max_width as nat
    }

    pub fn new() -> (r: Self)
        ensures
            r.width() == DEFAULT_MAX_WIDTH,
    {
        Formatter { max_width: DEFAULT_MAX_WIDTH }
    }

    pub fn with_max_width(max_width: usize) -> (r: Self)
        ensures
            r.width() == max_width,
    {
        Formatter { max_width }
    }

    /// Strips highlight markers and image references and re-wraps every
    /// paragraph at this formatter's width.
    pub fn process_text(&self, text: &str) -> (r: String)
        ensures
            r@ == sanitized(text@, self.width()),
    {
        sanitize(text, self.max_width)
    }

    fn format_item(&self, item: &ContentItem) -> (r: FormattedContentItem)
        ensures
            item_shown(*item, r, self.width()),
    {
        let description = text_or_empty(&item.description);
        let quote = text_or_empty(&item.quote);
        FormattedContentItem {
            title: text_or_empty(&item.title),
            sub_title: text_or_empty(&item.sub_title),
            caption: text_or_empty(&item.caption),
            description: self.process_text(description.as_str()),
            quote: self.process_text(quote.as_str()),
            url: text_or_empty(&item.url),
            link: text_or_empty(&item.link),
        }
    }

    /// One section for display, its items derived from its content value.
    pub fn format_content_section(&self, section: &ContentSection) -> (r: FormattedContentSection)
        ensures
            section_shown(*section, r, self.width()),
    {
        let title = text_or_empty(&section.title);
        let layout = text_or_empty(&section.layout);
        let mut items: Vec<FormattedContentItem> = Vec::new();
        match &section.content {
            ContentValue::Items(raw) => {
                let mut i: usize = 0;
                while i < raw.len()
                    invariant
                        section.content == ContentValue::Items(*raw),
                        i <= raw@.len(),
                        items@.len() == i,
                        forall|k: int|
                            0 <= k < i ==> item_shown(
                                #[trigger] raw@[k],
                                items@[k],
                                self.width(),
                            ),
                    decreases raw.len() - i,
                {
                    let it = self.format_item(&raw[i]);
                    items.push(it);
                    i += 1;
                }
            },
            ContentValue::Text(t) => {
                let description = self.process_text(t.as_str());
                items.push(
                    FormattedContentItem {
                        title: String::new(),
                        sub_title: String::new(),
                        caption: String::new(),
                        description,
                        quote: String::new(),
                        url: String::new(),
                        link: String::new(),
                    },
                );
            },
            ContentValue::Empty => {},
        }
        FormattedContentSection { title, layout, items }
    }

    /// The whole document for display.
    pub fn format(&self, portfolio: &Portfolio) -> (r: FormattedPortfolio)
        ensures
            portfolio_shown(*portfolio, r, self.width()),
    {
        let name = match &portfolio.name {
            Some(n) => n.clone(),
            None => String::from_str(DEFAULT_NAME),
        };
        let title = match &portfolio.title {
            Some(t) => t.clone(),
            None => String::from_str(DEFAULT_TITLE),
        };
        let about = match &portfolio.about_content {
            Some(a) => self.process_text(a.as_str()),
            None => String::new(),
        };
        let mut content_sections: Vec<FormattedContentSection> = Vec::new();
        match &portfolio.content {
            Some(sections) => {
                let mut i: usize = 0;
                while i < sections.len()
                    invariant
                        sections_of(*portfolio) == sections@,
                        i <= sections@.len(),
                        content_sections@.len() == i,
                        forall|k: int|
                            0 <= k < i ==> section_shown(
                                #[trigger] sections@[k],
                                content_sections@[k],
                                self.width(),
                            ),
                    decreases sections.len() - i,
                {
                    let s = self.format_content_section(&sections[i]);
                    content_sections.push(s);
                    i += 1;
                }
            },
            None => {},
        }
        let mut social: Vec<FormattedSocial> = Vec::new();
        assert(social_views(social@) =~= Seq::empty());
        push_social(&mut social, &portfolio.email, "Email", "mailto:");
        push_social(&mut social, &portfolio.website, "Website", "");
        push_social(&mut social, &portfolio.github_username, "GitHub", "https://github.com/");
        push_social(&mut social, &portfolio.twitter_username, "Twitter", "https://twitter.com/");
        push_social(
            &mut social,
            &portfolio.linkedin_username,
            "LinkedIn",
            "https://linkedin.com/in/",
        );
        push_social(
            &mut social,
            &portfolio.discord_username,
            "Discord",
            "https://discord.com/users/",
        );
        assert(social_views(social@) =~= social_of(*portfolio));
        FormattedPortfolio { name, title, about, content_sections, social }
    }
}

} // verus!
