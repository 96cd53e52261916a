//! Collections of uploaded files.
use vstd::prelude::*;

verus! {

/// A page of a collection's file listing.
pub struct FileListQuery {
    pub page_size: i32,
    pub continuation_token: Option<String>,
}

/// The default page size of a file listing: 10.
pub fn default_page_size() -> (r: i32)
    ensures
        r == 10,
{
    10
}

} // verus!
