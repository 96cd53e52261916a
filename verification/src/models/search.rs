//! Search requests.
use vstd::prelude::*;

verus! {

/// What a search returns: whole documents or single chunks.
#[derive(PartialEq, Eq, Structural, Clone, Copy)]
pub enum SearchMode {
    Documents,
    Chunks,
}

impl Default for SearchMode {
    /// Documents are searched by default.
    fn default() -> (r: Self)
        ensures
            r == SearchMode::Documents,
    {
        SearchMode::Documents
    }
}

/// Vector search tuning: exact search, and the HNSW beam width.
pub struct SearchParams {
    pub exact: bool,
    pub hnsw_ef: Option<u64>,
}

/// The default number of results of a search: 10.
pub fn default_limit() -> (r: u64)
    ensures
        r == 10,
{
    10
}

} // verus!
