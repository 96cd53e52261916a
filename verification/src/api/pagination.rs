//! Normalization of pagination and search parameters.
use vstd::prelude::*;
use crate::openid::opt_string_view;
use crate::text::{chars_to_string, str_to_chars, trim, trim_exec};

verus! {

/// `v` clamped into `[lo, hi]`.
pub open spec fn clamped(v: i64, lo: i64, hi: i64) -> i64 {
    if v < lo {
        lo
    } else if v > hi {
        hi
    } else {
        v
    }
}

/// Clamps a value into `[lo, hi]`, as `i64::clamp` does.
pub fn clamp_i64(v: i64, lo: i64, hi: i64) -> (r: i64)
    requires
        lo <= hi,
    ensures
        r == clamped(v, lo, hi),
        lo <= r <= hi,
{
    if v < lo {
        lo
    } else if v > hi {
        hi
    } else {
        v
    }
}

/// The page actually served: the limit clamped into `[min_limit,
/// max_limit]` and a negative offset raised to 0.
pub fn page_bounds(limit: i64, offset: i64, min_limit: i64, max_limit: i64) -> (r: (i64, i64))
    requires
        min_limit <= max_limit,
    ensures
        r.0 == clamped(limit, min_limit, max_limit),
        r.1 == if offset < 0 {
            0
        } else {
            offset
        },
{
    let l = clamp_i64(limit, min_limit, max_limit);
    let o = if offset < 0 { 0 } else { offset };
    (l, o)
}

/// A search term with surrounding whitespace removed; `None` when there is
/// no term or it is blank.
pub open spec fn search_term(search: Option<Seq<char>>) -> Option<Seq<char>> {
    match search {
        Some(s) => if trim(s).len() == 0 {
            None
        } else {
            Some(trim(s))
        },
        None => None,
    }
}

/// Normalizes an optional search term.
pub fn normalize_search(search: &Option<String>) -> (r: Option<String>)
    ensures
        opt_string_view(r) == search_term(opt_string_view(*search)),
{
    match search {
        Some(s) => {
            let c = str_to_chars(s.as_str());
            let t = trim_exec(c.as_slice());
            if t.len() == 0 {
                None
            } else {
                Some(chars_to_string(t.as_slice()))
            }
        },
        None => None,
    }
}

} // verus!
