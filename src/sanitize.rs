//! Text cleanup for display: highlight markup is stripped, image references
//! are deleted, and every paragraph is re-wrapped to a column width.
use vstd::prelude::*;

use crate::text::{joined, lines_of, replaced, views, join_lines, replace_all, split_lines, chars_of};

verus! {

/// An embedded image reference: `![alt text](path "optional title")`.
pub const IMAGE_PATTERN: &'static str = "!\\[.*?\\]\\(.*?(?:\\s+\".*?\")?\\)";

/// The opening highlight marker.
pub const MARK_OPEN: &'static str = "<mark>";

/// The closing highlight marker.
pub const MARK_CLOSE: &'static str = "</mark>";

/// Whether a character has the Unicode `White_Space` property, as
/// `char::is_whitespace` reports it.
pub uninterp spec fn white_space(c: char) -> bool;

/// Relies on `char::is_whitespace`: a fixed property of the character.
#[verifier::external_body]
fn is_white_space(c: char) -> (r: bool)
    ensures
        r == white_space(c),
{
    c.is_whitespace()
}

/// What `regex` leaves of `text` once every match of `pattern` is erased,
/// or `None` where `pattern` does not compile.
pub uninterp spec fn regex_erasure(pattern: Seq<char>, text: Seq<char>) -> Option<Seq<char>>;

/// Relies on `regex::Regex::new` and `regex::Regex::replace_all` with an
/// empty replacement: the result depends on the pattern and the text alone.
#[verifier::external_body]
fn erase_matches(pattern: &str, text: &str) -> (r: Option<String>)
    ensures
        match r {
            Some(s) => regex_erasure(pattern@, text@) == Some(s@),
            None => regex_erasure(pattern@, text@) is None,
        },
{
    match regex::Regex::new(pattern) {
        Ok(re) => Some(re.replace_all(text, "").into_owned()),
        Err(_) => None,
    }
}

/// The lines into which `textwrap` breaks a paragraph at `width` columns,
/// filling each line greedily, breaking only at spaces and never inside a
/// word.
pub uninterp spec fn greedy_lines(text: Seq<char>, width: nat) -> Seq<Seq<char>>;

/// Relies on `textwrap::wrap` with the first-fit algorithm, without
/// hyphenation and without breaking long words: the lines depend on the
/// text and the width alone.
#[verifier::external_body]
fn wrap_lines(text: &str, width: usize) -> (r: Vec<String>)
    ensures
        views(r@) == greedy_lines(text@, width as nat),
{
    let options = textwrap::Options::new(width)
        .wrap_algorithm(textwrap::WrapAlgorithm::FirstFit)
        .break_words(false)
        .word_splitter(textwrap::WordSplitter::NoHyphenation);
    textwrap::wrap(text, options).into_iter().map(|line| line.into_owned()).collect()
}

/// The text with both highlight markers deleted and the enclosed text kept.
pub open spec fn marks_removed(t: Seq<char>) -> Seq<char> {
    replaced(replaced(t, MARK_OPEN@, Seq::empty()), MARK_CLOSE@, Seq::empty())
}

/// The text with every image reference deleted, alt text included.
pub open spec fn images_removed(t: Seq<char>) -> Seq<char> {
    match regex_erasure(IMAGE_PATTERN@, t) {
        Some(r) => r,
        None => t,
    }
}

/// Whether a paragraph holds nothing but white space.
pub open spec fn is_blank(p: Seq<char>) -> bool {
    forall|i: int| 0 <= i < p.len() ==> white_space(#[trigger] p[i])
}

/// A blank paragraph becomes an empty line; any other is wrapped.
pub open spec fn wrapped_paragraph(p: Seq<char>, width: nat) -> Seq<char> {
    if is_blank(p) {
        Seq::empty()
    } else {
        joined(greedy_lines(p, width))
    }
}

/// Each paragraph (the pieces between newlines) wrapped on its own, and the
/// paragraphs joined again with newlines.
pub open spec fn wrapped(t: Seq<char>, width: nat) -> Seq<char> {
    joined(lines_of(t).map_values(|p: Seq<char>| wrapped_paragraph(p, width)))
}

/// The whole cleanup: markers stripped, then images deleted, then wrapped.
pub open spec fn sanitized(t: Seq<char>, width: nat) -> Seq<char> {
    wrapped(images_removed(marks_removed(t)), width)
}

/// Deletes both highlight markers, keeping the text between them.
pub fn remove_mark_tags(text: &str) -> (r: String)
    ensures
        r@ == marks_removed(text@),
{
    proof {
        reveal_strlit("<mark>");
        reveal_strlit("</mark>");
        reveal_strlit("");
        assert(""@ =~= Seq::<char>::empty());
    }
    let once = replace_all(text, MARK_OPEN, "");
    replace_all(once.as_str(), MARK_CLOSE, "")
}

/// Deletes every image reference.
pub fn remove_image_references(text: &str) -> (r: String)
    ensures
        r@ == images_removed(text@),
{
    match erase_matches(IMAGE_PATTERN, text) {
        Some(s) => s,
        None => String::from_str(text),
    }
}

/// Whether the paragraph holds nothing but white space.
fn blank(p: &str) -> (r: bool)
    ensures
        r == is_blank(p@),
{
    let cs = chars_of(p);
    let mut i: usize = 0;
    while i < cs.len()
        invariant
            cs@ == p@,
            i <= cs@.len(),
            forall|k: int| 0 <= k < i ==> white_space(#[trigger] p@[k]),
        decreases cs.len() - i,
    {
        if !is_white_space(cs[i]) {
            return false;
        }
        i += 1;
    }
    true
}

/// One paragraph, wrapped at `width` columns; a blank one gives nothing.
fn wrap_paragraph(p: &str, width: usize) -> (r: String)
    ensures
        r@ == wrapped_paragraph(p@, width as nat),
{
    if blank(p) {
        String::new()
    } else {
        let lines = wrap_lines(p, width);
        join_lines(&lines)
    }
}

/// Every paragraph wrapped at `width` columns, blank ones kept as empty
/// lines.
pub fn wrap_text(text: &str, width: usize) -> (r: String)
    ensures
        r@ == wrapped(text@, width as nat),
{
    let paragraphs = split_lines(text);
    let mut out: Vec<String> = Vec::new();
    let mut i: usize = 0;
    while i < paragraphs.len()
        invariant
            views(paragraphs@) == lines_of(text@),
            i <= paragraphs@.len(),
            out@.len() == i,
            forall|k: int|
                0 <= k < i ==> (#[trigger] out@[k])@ == wrapped_paragraph(
                    paragraphs@[k]@,
                    width as nat,
                ),
        decreases paragraphs.len() - i,
    {
        let w = wrap_paragraph(paragraphs[i].as_str(), width);
        out.push(w);
        i += 1;
    }
    assert(views(out@) =~= lines_of(text@).map_values(
        |p: Seq<char>| wrapped_paragraph(p, width as nat),
    ));
    join_lines(&out)
}

/// The full cleanup at `width` columns.
pub fn sanitize(text: &str, width: usize) -> (r: String)
    ensures
        r@ == sanitized(text@, width as nat),
{
    let unmarked = remove_mark_tags(text);
    let no_images = remove_image_references(unmarked.as_str());
    wrap_text(no_images.as_str(), width)
}

} // verus!
