//! Parameters of the dataset transform endpoints.
use vstd::prelude::*;

verus! {

/// Listing parameters: page, sort field and direction.
pub struct SortParams {
    pub limit: i64,
    pub offset: i64,
    pub sort_by: String,
    pub sort_direction: String,
}

/// The default page size: 10.
pub fn default_limit() -> (r: i64)
    ensures
        r == 10,
{
    10
}

/// The default sort field: "created_at".
pub fn default_sort_by() -> (r: String)
    ensures
        r@ == "created_at"@,
{
    "created_at".to_string()
}

/// The default sort direction: "desc".
pub fn default_sort_direction() -> (r: String)
    ensures
        r@ == "desc"@,
{
    "desc".to_string()
}

} // verus!
