//! Labels of the cache metrics.
use vstd::prelude::*;
use crate::text::str_to_chars;

verus! {

/// The cache type of a cache key: its prefix before the first ':' (the
/// whole key when it has none), as in "bearer:abc" → "bearer".
pub fn cache_type_from_key(key: &str) -> (r: &str)
    ensures
        r@.len() <= key@.len(),
        r@ == key@.take(r@.len() as int),
        forall|i: int| 0 <= i < r@.len() ==> r@[i] != ':',
        r@.len() < key@.len() ==> key@[r@.len() as int] == ':',
{
    let c = str_to_chars(key);
    let mut n: usize = 0;
    while n < c.len() && c[n] != ':'
        invariant
            n <= c.len(),
            c@ == key@,
            forall|i: int| 0 <= i < n ==> c@[i] != ':',
        decreases c.len() - n,
    {
        n = n + 1;
    }
    key.substring_char(0, n)
}

} // verus!
