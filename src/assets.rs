//! Caching rules for the bundled front-end files.

use vstd::prelude::*;
use crate::classify::{has_prefix, same_text, starts_with_text};

verus! {

/// The `Cache-Control` value for a bundled file: hashed assets never change,
/// the entry page is always revalidated, anything else is kept an hour.
pub open spec fn cache_control_of(path: Seq<char>) -> Seq<char> {
    if has_prefix(path, "assets/"@) {
        "public, max-age=31536000, immutable"@
    } else if path == "index.html"@ {
        "no-cache"@
    } else {
        "public, max-age=3600"@
    }
}

pub fn cache_control(path: &str) -> (r: &'static str)
    ensures
        r@ == cache_control_of(path@),
{
    if starts_with_text(path, "assets/") {
        "public, max-age=31536000, immutable"
    } else if same_text(path, "index.html") {
        "no-cache"
    } else {
        "public, max-age=3600"
    }
}

} // verus!
