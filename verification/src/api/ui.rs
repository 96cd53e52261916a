//! The web UI's entry point.
use vstd::prelude::*;
use crate::text::{append_str, chars_to_string, ends_with, ends_with_str, str_to_chars};

verus! {

/// Where a request for the site root is redirected: the UI under the
/// requested URL.
pub fn ui_redirect_target(from: &str) -> (r: String)
    ensures
        r@ == from@ + if ends_with(from@, "/"@) {
            "ui"@
        } else {
            "/ui"@
        },
{
    let f = str_to_chars(from);
    let mut out: Vec<char> = Vec::new();
    append_str(&mut out, from);
    if ends_with_str(f.as_slice(), "/") {
        append_str(&mut out, "ui");
    } else {
        append_str(&mut out, "/ui");
    }
    chars_to_string(out.as_slice())
}

} // verus!
