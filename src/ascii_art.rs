//! Logos drawn with text characters.
use vstd::prelude::*;

use crate::navigation::{lower_of, lowercase};

verus! {

/// A small duck.
pub const DUCK_LOGO: &'static str = r#"
    _
  >(.)__
   (___/
"#;

/// The logo used for any other name.
pub const DEFAULT_LOGO: &'static str = r#"
    _____           _            _           _           _
   |  __ \         | |          | |         | |         | |
   | |__) |__  _ __| |_ ___  ___| | ___   __| | ___   __| |
   |  ___/ _ \| '__| __/ _ \/ __| |/ _ \ / _` |/ _ \ / _` |
   | |  | (_) | |  | ||  __/ (__| | (_) | (_| | (_) | (_| |
   |_|   \___/|_|   \__\___|\___|_|\___/ \__,_|\___/ \__,_|
"#;

/// The logo for a name, compared case-insensitively: "duck" gives the duck,
/// anything else the default logo.
pub fn get_logo(name: &str) -> (r: &'static str)
    ensures
        r@ == if lower_of(name@) == "duck"@ {
            DUCK_LOGO@
        } else {
            DEFAULT_LOGO@
        },
{
    let lower = lowercase(name);
    let duck = String::from_str("duck");
    if lower == duck {
        DUCK_LOGO
    } else {
        DEFAULT_LOGO
    }
}

} // verus!
