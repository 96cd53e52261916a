//! Datasets and their items.
use vstd::prelude::*;
use crate::text::{chars_to_string, str_to_chars, trim, trim_exec};

verus! {

/// A page of a dataset's items, optionally filtered by a search term.
pub struct PaginationParams {
    pub page: i64,
    pub page_size: i64,
    pub search: Option<String>,
}

/// The default page size of an item listing: 10.
pub fn default_page_size() -> (r: i64)
    ensures
        r == 10,
{
    10
}

/// A list that must not be empty, as item lists are checked when read.
pub fn non_empty<T>(v: Vec<T>) -> (r: Result<Vec<T>, String>)
    ensures
        v.len() == 0 ==> (r matches Err(m) && m@ == "list must not be empty"@),
        v.len() > 0 ==> r == Ok::<Vec<T>, String>(v),
{
    if v.len() == 0 {
        Err("list must not be empty".to_string())
    } else {
        Ok(v)
    }
}

/// A text that must not be blank, as chunk contents are checked when read;
/// it is kept trimmed.
pub fn non_empty_string(s: &str) -> (r: Result<String, String>)
    ensures
        trim(s@).len() == 0 ==> (r matches Err(m) && m@ == "must not be empty or contain only whitespace"@),
        trim(s@).len() > 0 ==> (r matches Ok(t) && t@ == trim(s@)),
{
    let c = str_to_chars(s);
    let t = trim_exec(c.as_slice());
    if t.len() == 0 {
        Err("must not be empty or contain only whitespace".to_string())
    } else {
        Ok(chars_to_string(t.as_slice()))
    }
}

} // verus!
