//! Parameters of the marketplace endpoints.
use vstd::prelude::*;
use crate::api::pagination::{clamp_i64, clamped, page_bounds};

verus! {

/// The largest page of public resources.
pub const MAX_MARKETPLACE_LIMIT: i64 = 200;

/// Page of public resources.
pub struct MarketplacePaginationParams {
    pub limit: i64,
    pub offset: i64,
}

/// The default page size: 50.
pub fn default_marketplace_limit() -> (r: i64)
    ensures
        r == 50,
{
    50
}

/// The page served: limit within [1, 200], offset at least 0.
pub fn marketplace_page(params: &MarketplacePaginationParams) -> (r: (i64, i64))
    ensures
        r.0 == clamped(params.limit, 1, MAX_MARKETPLACE_LIMIT),
        r.1 == if params.offset < 0 {
            0
        } else {
            params.offset
        },
{
    page_bounds(params.limit, params.offset, 1, MAX_MARKETPLACE_LIMIT)
}

/// The number of recent resources listed: 5 by default, within [0, 100].
pub fn recent_limit(limit: Option<i32>) -> (r: i64)
    ensures
        r == clamped(
            match limit {
                Some(l) => l as i64,
                None => 5,
            },
            0,
            100,
        ),
{
    let l: i64 = match limit {
        Some(l) => l as i64,
        None => 5,
    };
    clamp_i64(l, 0, 100)
}

} // verus!
