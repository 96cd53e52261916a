//! Visualization points.
use vstd::prelude::*;

verus! {

/// A page of a visualization's points.
pub struct VisualizationPointsQuery {
    pub limit: u32,
    pub offset: Option<String>,
}

/// The default number of points of a page: 1000.
pub fn default_limit() -> (r: u32)
    ensures
        r == 1000,
{
    1000
}

} // verus!
