//! Where the document comes from: a remote address or a local path, and the
//! address that serves a repository file's raw text.
use vstd::prelude::*;

use crate::text::{contains, contains_str, replace_all, replaced, starts_with, starts_with_str};

verus! {

/// The document shown when no other is named.
pub const DEFAULT_CONFIG_PATH: &'static str =
    "https://github.com/Pokeylooted/Pokeylooted.github.io/blob/main/_config.yml";

/// The command-line arguments.
#[derive(Debug, Clone)]
pub struct Args {
    /// A local path or a remote address of the document.
    pub config_path: String,
}

/// Whether a source names a remote document rather than a local file.
pub fn is_remote_source(source: &str) -> (r: bool)
    ensures
        r == starts_with(source@, "http"@),
{
    starts_with_str(source, "http")
}

/// The raw-text address for a repository page address.
pub open spec fn raw_url_of(url: Seq<char>) -> Seq<char> {
    if contains(url, "github.com"@) && contains(url, "/blob/"@) {
        replaced(
            replaced(url, "github.com"@, "raw.githubusercontent.com"@),
            "/blob/"@,
            "/"@,
        )
    } else {
        url
    }
}

/// A repository page address (host `github.com`, path with `/blob/`) turned
/// into the address of the file's raw text; any other address unchanged.
pub fn raw_content_url(url: &str) -> (r: String)
    ensures
        r@ == raw_url_of(url@),
{
    if contains_str(url, "github.com") && contains_str(url, "/blob/") {
        proof {
            reveal_strlit("github.com");
            reveal_strlit("/blob/");
        }
        let host = replace_all(url, "github.com", "raw.githubusercontent.com");
        replace_all(host.as_str(), "/blob/", "/")
    } else {
        String::from_str(url)
    }
}

} // verus!
