//! Parameters of the visualization transform endpoints.
use vstd::prelude::*;

verus! {

/// Listing parameters: page, sort field and direction, search term.
pub struct SortParams {
    pub limit: i64,
    pub offset: i64,
    pub sort_by: String,
    pub sort_direction: String,
    pub search: Option<String>,
}

/// The default page size: 10.
pub fn default_limit() -> (r: i64)
    ensures
        r == 10,
{
    10
}

/// The default sort field: "created_at".
pub fn default_sort_by() -> (r: String)
    ensures
        r@ == "created_at"@,
{
    "created_at".to_string()
}

/// The default sort direction: "desc".
pub fn default_sort_direction() -> (r: String)
    ensures
        r@ == "desc"@,
{
    "desc".to_string()
}

/// Page of visualizations.
pub struct PaginationParams {
    pub limit: i64,
    pub offset: i64,
}

/// The default page size of visualizations: 50.
pub fn default_pagination_limit() -> (r: i64)
    ensures
        r == 50,
{
    50
}

/// The limit used for recent visualizations: clamped into [1, 100].
pub fn recent_visualizations_limit(limit: i64) -> (r: i64)
    ensures
        r == crate::api::pagination::clamped(limit, 1, 100),
{
    crate::api::pagination::clamp_i64(limit, 1, 100)
}

/// Filter of the status event stream.
pub struct VisualizationSSEStreamQuery {
    pub embedded_dataset_id: Option<i32>,
    pub visualization_transform_id: Option<i32>,
}

} // verus!
