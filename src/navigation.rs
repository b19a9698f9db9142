//! The section navigator: a synthetic "Home" followed by every content
//! section, the position in that list, and the transitions that single key
//! presses make.
use vstd::prelude::*;

use crate::formatter::FormattedPortfolio;
use crate::text::views;
use vstd::arithmetic::div_mod::{lemma_mod_add_multiples_vanish, lemma_small_mod};

verus! {

/// The title of the first, synthetic section.
pub const HOME_TITLE: &'static str = "Home";

/// A key press, as far as navigation tells keys apart.
#[derive(Debug, Clone, Copy, PartialEq, Eq, Structural)]
pub enum Key {
    Char(char),
    Left,
    Right,
    Other,
}

/// What is on screen: the home view or one content section, by its index
/// among the document's sections.
#[derive(Debug, Clone, Copy, PartialEq, Eq, Structural)]
pub enum ActiveView {
    Home,
    Content(usize),
}

/// The lowercase form of a text, as `str::to_lowercase` gives it.
pub uninterp spec fn lower_of(s: Seq<char>) -> Seq<char>;

/// Relies on `str::to_lowercase`: the result depends on the characters
/// alone.
#[verifier::external_body]
pub(crate) fn lowercase(s: &str) -> (r: String)
    ensures
        r@ == lower_of(s@),
{
    s.to_lowercase()
}

/// The first character of a character's lowercase mapping, as
/// `char::to_lowercase` gives it.
pub uninterp spec fn lower_head(c: char) -> char;

/// Relies on `char::to_lowercase`, which yields one or more characters
/// that depend on `c` alone; the first of them is taken.
#[verifier::external_body]
fn lowercase_head(c: char) -> (r: char)
    ensures
        r == lower_head(c),
{
    c.to_lowercase().next().unwrap_or(c)
}

/// A decimal digit key.
pub open spec fn is_digit(c: char) -> bool {
    '0' <= c && c <= '9'
}

/// The section a digit key selects: `1` the first, ..., `9` the ninth and
/// `0` the tenth.
pub open spec fn digit_target(c: char) -> int {
    if c == '0' {
        9
    } else {
        (c as u32) as int - ('1' as u32) as int
    }
}

/// Whether a section title, case-insensitively, starts with `c`.
pub open spec fn title_matches(t: Seq<char>, c: char) -> bool {
    t.len() > 0 && lower_of(t).len() > 0 && lower_of(t)[0] == lower_head(c)
}

/// Whether `j` is the first section whose title starts with `c`.
pub open spec fn first_match(titles: Seq<Seq<char>>, c: char, j: int) -> bool {
    &&& 0 <= j < titles.len()
    &&& title_matches(titles[j], c)
    &&& forall|k: int| 0 <= k < j ==> !title_matches(#[trigger] titles[k], c)
}

/// One step back, wrapping from the first section to the last.
pub open spec fn prev_index(i: int, n: int) -> int {
    if n > 0 {
        (i - 1 + n) % n
    } else {
        i
    }
}

/// One step forward, wrapping from the last section to the first.
pub open spec fn next_index(i: int, n: int) -> int {
    if n > 0 {
        (i + 1) % n
    } else {
        i
    }
}

/// The position after a key press at position `i`: `q` quits, `h` goes
/// home, left or `j` steps back, right or `l` steps forward, a digit picks a
/// section when there is one, and any other character jumps to the first
/// section whose title starts with it. Anything else changes nothing.
pub open spec fn index_after(titles: Seq<Seq<char>>, i: int, key: Key) -> int {
    let n = titles.len() as int;
    match key {
        Key::Left => prev_index(i, n),
        Key::Right => next_index(i, n),
        Key::Other => i,
        Key::Char(c) => if c == 'q' {
            i
        } else if c == 'h' {
            0
        } else if c == 'j' {
            prev_index(i, n)
        } else if c == 'l' {
            next_index(i, n)
        } else if is_digit(c) {
            if digit_target(c) < n {
                digit_target(c)
            } else {
                i
            }
        } else if exists|j: int| first_match(titles, c, j) {
            choose|j: int| first_match(titles, c, j)
        } else {
            i
        },
    }
}

/// The view for a position: home at 0, else the content section before it.
pub open spec fn view_of(i: int) -> ActiveView {
    if i == 0 {
        ActiveView::Home
    } else {
        ActiveView::Content((i - 1) as usize)
    }
}

pub proof fn lemma_first_match_unique(titles: Seq<Seq<char>>, c: char, j1: int, j2: int)
    requires
        first_match(titles, c, j1),
        first_match(titles, c, j2),
    ensures
        j1 == j2,
{
    if j1 < j2 {
        assert(!title_matches(titles[j1], c));
    } else if j2 < j1 {
        assert(!title_matches(titles[j2], c));
    }
}

/// The navigable sections and the position among them.
pub struct Navigation {
    pub sections: Vec<String>,
    pub current_index: usize,
    pub should_quit: bool,
}

impl Navigation {
    /// The position is valid whenever there are sections.
    pub open spec fn wf(&self) -> bool {
        self.sections@.len() > 0 ==> self.current_index < self.sections@.len()
    }

    pub open spec fn titles(&self) -> Seq<Seq<char>> {
        views(self.sections@)
    }

    /// A navigator over the given titles, at the first one.
    pub fn new(sections: Vec<String>) -> (r: Self)
        ensures
            r.sections@ == sections@,
            r.current_index == 0,
            !r.should_quit,
            r.wf(),
    {
        Navigation { sections, current_index: 0, should_quit: false }
    }

    /// "Home" followed by the title of every section, in document order.
    pub fn for_portfolio(portfolio: &FormattedPortfolio) -> (r: Self)
        ensures
            r.titles() == seq![HOME_TITLE@] + portfolio.content_sections@.map_values(
                |s: crate::formatter::FormattedContentSection| s.title@,
            ),
            r.current_index == 0,
            !r.should_quit,
            r.wf(),
    {
        let mut sections: Vec<String> = Vec::new();
        sections.push(String::from_str(HOME_TITLE));
        let mut i: usize = 0;
        while i < portfolio.content_sections.len()
            invariant
                i <= portfolio.content_sections@.len(),
                views(sections@) == seq![HOME_TITLE@] + portfolio.content_sections@.take(
                    i as int,
                ).map_values(|s: crate::formatter::FormattedContentSection| s.title@),
            decreases portfolio.content_sections.len() - i,
        {
            let ghost before = sections@;
            let ghost f = |s: crate::formatter::FormattedContentSection| s.title@;
            let ghost secs = portfolio.content_sections@;
            sections.push(portfolio.content_sections[i].title.clone());
            assert(views(sections@) =~= views(before).push(secs[i as int].title@));
            assert(secs.take(i + 1).map_values(f) =~= secs.take(i as int).map_values(f).push(
                secs[i as int].title@,
            ));
            i += 1;
            assert(views(sections@) =~= seq![HOME_TITLE@] + secs.take(i as int).map_values(f));
        }
        assert(portfolio.content_sections@.take(i as int) =~= portfolio.content_sections@);
        Navigation { sections, current_index: 0, should_quit: false }
    }

    /// The view that the current position selects.
    pub fn current_view(&self) -> (r: ActiveView)
        ensures
            r == view_of(self.current_index as int),
    {
        if self.current_index == 0 {
            ActiveView::Home
        } else {
            ActiveView::Content(self.current_index - 1)
        }
    }

    /// One section back, from the first to the last.
    pub fn previous_section(&mut self)
        requires
            old(self).wf(),
        ensures
            final(self).wf(),
            final(self).sections == old(self).sections,
            final(self).should_quit == old(self).should_quit,
            final(self).current_index == prev_index(
                old(self).current_index as int,
                old(self).sections@.len() as int,
            ),
    {
        let n = self.sections.len();
        if n > 0 {
            let i = self.current_index;
            proof {
                if i == 0 {
                    lemma_small_mod((n - 1) as nat, n as nat);
                } else {
                    lemma_mod_add_multiples_vanish(i - 1, n as int);
                    lemma_small_mod((i - 1) as nat, n as nat);
                }
            }
            self.current_index = if i == 0 {
                n - 1
            } else {
                i - 1
            };
        }
    }

    /// One section forward, from the last to the first.
    pub fn next_section(&mut self)
        requires
            old(self).wf(),
        ensures
            final(self).wf(),
            final(self).sections == old(self).sections,
            final(self).should_quit == old(self).should_quit,
            final(self).current_index == next_index(
                old(self).current_index as int,
                old(self).sections@.len() as int,
            ),
    {
        let n = self.sections.len();
        if n > 0 {
            self.current_index = (self.current_index + 1) % n;
        }
    }

    /// Moves to `index` when there is such a section; otherwise nothing.
    pub fn navigate_to_section(&mut self, index: usize)
        requires
            old(self).wf(),
        ensures
            final(self).wf(),
            final(self).sections == old(self).sections,
            final(self).should_quit == old(self).should_quit,
            final(self).current_index == if index < old(self).sections@.len() {
                index
            } else {
                old(self).current_index
            },
    {
        if index < self.sections.len() {
            self.current_index = index;
        }
    }

    /// The first section whose title starts with `c`, case-insensitively.
    fn first_letter_match(&self, c: char) -> (r: Option<usize>)
        ensures
            match r {
                Some(j) => first_match(self.titles(), c, j as int),
                None => forall|j: int|
                    0 <= j < self.titles().len() ==> !title_matches(#[trigger] self.titles()[j], c),
            },
    {
        let wanted = lowercase_head(c);
        let mut i: usize = 0;
        while i < self.sections.len()
            invariant
                wanted == lower_head(c),
                i <= self.sections@.len(),
                forall|k: int| 0 <= k < i ==> !title_matches(#[trigger] self.titles()[k], c),
            decreases self.sections.len() - i,
        {
            let title = self.sections[i].as_str();
            assert(self.titles()[i as int] == title@);
            if title.unicode_len() > 0 {
                let lower = lowercase(title);
                if lower.as_str().unicode_len() > 0 && lower.as_str().get_char(0) == wanted {
                    return Some(i);
                }
            }
            i += 1;
        }
        None
    }

    /// Applies one key press; once quit is set, nothing changes any more.
    pub fn handle_key(&mut self, key: Key)
        requires
            old(self).wf(),
        ensures
            final(self).wf(),
            final(self).sections == old(self).sections,
            old(self).should_quit ==> final(self).should_quit && final(self).current_index
                == old(self).current_index,
            !old(self).should_quit ==> final(self).should_quit == (key == Key::Char('q'))
                && final(self).current_index == index_after(
                old(self).titles(),
                old(self).current_index as int,
                key,
            ),
    {
        if self.should_quit {
            return;
        }
        match key {
            Key::Left => self.previous_section(),
            Key::Right => self.next_section(),
            Key::Other => {},
            Key::Char(c) => {
                if c == 'q' {
                    self.should_quit = true;
                } else if c == 'h' {
                    self.current_index = 0;
                } else if c == 'j' {
                    self.previous_section();
                } else if c == 'l' {
                    self.next_section();
                } else if '0' <= c && c <= '9' {
                    let target: usize = if c == '0' {
                        9
                    } else {
                        (c as u32 - '1' as u32) as usize
                    };
                    self.navigate_to_section(target);
                } else {
                    match self.first_letter_match(c) {
                        Some(j) => {
                            proof {
                                let titles = old(self).titles();
                                assert(first_match(titles, c, j as int));
                                let chosen = choose|x: int| first_match(titles, c, x);
                                lemma_first_match_unique(titles, c, j as int, chosen);
                            }
                            self.current_index = j;
                        },
                        None => {
                            proof {
                                let titles = old(self).titles();
                                assert(!exists|x: int| first_match(titles, c, x)) by {
                                    if exists|x: int| first_match(titles, c, x) {
                                        let x = choose|x: int| first_match(titles, c, x);
                                        assert(title_matches(titles[x], c));
                                    }
                                }
                            }
                        },
                    }
                }
            },
        }
    }
}

} // verus!
