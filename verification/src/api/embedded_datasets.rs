//! Embedded datasets: their parameters, the standalone datasets that accept
//! pushed vectors, and the validation of pushed points.
use vstd::prelude::*;
use crate::errors::{bad_request, ErrorBody};
use crate::models::embedded_datasets::EmbeddedDataset;
use crate::text::{append_chars, append_str, chars_to_string, decimal, decimal_chars};

verus! {

/// The largest page of embedded datasets.
pub const MAX_EMBEDDED_DATASETS_LIMIT: i64 = 200;

/// The default page of embedded datasets.
pub const DEFAULT_EMBEDDED_DATASETS_LIMIT: i64 = 50;

/// The largest page of processed batches.
pub const MAX_PROCESSED_BATCHES_LIMIT: i64 = 5000;

/// The default page of processed batches.
pub const DEFAULT_PROCESSED_BATCHES_LIMIT: i64 = 100;

/// The most points one push may carry.
pub const MAX_POINTS_PER_PUSH: usize = 1000;

/// Page of embedded datasets.
pub struct EmbeddedDatasetsPaginationParams {
    pub limit: i64,
    pub offset: i64,
}

/// The default page size of embedded datasets: 50.
pub fn default_embedded_datasets_limit() -> (r: i64)
    ensures
        r == DEFAULT_EMBEDDED_DATASETS_LIMIT,
{
    DEFAULT_EMBEDDED_DATASETS_LIMIT
}

/// Page of processed batches.
pub struct ProcessedBatchesPaginationParams {
    pub limit: i64,
    pub offset: i64,
}

/// The default page size of processed batches: 100.
pub fn default_processed_batches_limit() -> (r: i64)
    ensures
        r == DEFAULT_PROCESSED_BATCHES_LIMIT,
{
    DEFAULT_PROCESSED_BATCHES_LIMIT
}

/// Page of vector points.
pub struct PointsQuery {
    pub limit: u64,
    pub offset: u64,
}

/// The default page size of points: 10.
pub fn default_limit() -> (r: u64)
    ensures
        r == 10,
{
    10
}

/// New title of an embedded dataset.
pub struct UpdateEmbeddedDatasetRequest {
    pub title: String,
}

/// The dimensions of a standalone dataset must be between 1 and 65536.
pub fn validate_standalone_dimensions(dimensions: i32) -> (r: Result<(), ErrorBody>)
    ensures
        r is Ok <==> 1 <= dimensions <= 65536,
        r matches Err(e) ==> e.status == 400 && e.message@ == "Dimensions must be between 1 and 65536"@,
{
    if dimensions < 1 || dimensions > 65536 {
        Err(bad_request("Dimensions must be between 1 and 65536"))
    } else {
        Ok(())
    }
}

/// A push carries at least one and at most 1000 points.
pub fn validate_point_count(count: usize) -> (r: Result<(), ErrorBody>)
    ensures
        r is Ok <==> 1 <= count <= MAX_POINTS_PER_PUSH,
        count == 0 ==> (r matches Err(e) && e.status == 400 && e.message@
            == "At least one point must be provided"@),
        count > MAX_POINTS_PER_PUSH ==> (r matches Err(e) && e.status == 400 && e.message@
            == "Maximum 1000 points per request"@),
{
    if count == 0 {
        return Err(bad_request("At least one point must be provided"));
    }
    if count > MAX_POINTS_PER_PUSH {
        return Err(bad_request("Maximum 1000 points per request"));
    }
    Ok(())
}

/// Why vectors cannot be pushed to a dataset.
pub enum PushTargetError {
    /// The dataset was built by a transform (400).
    NotStandalone,
    /// The standalone dataset has no dimensions recorded (500).
    DimensionsMissing,
}

/// The vector dimensions expected by a dataset that accepts pushed vectors:
/// only standalone datasets do, and they must have dimensions recorded.
pub fn push_target_dimensions(dataset: &EmbeddedDataset) -> (r: Result<usize, PushTargetError>)
    ensures
        !(dataset.dataset_transform_id == 0 && dataset.source_dataset_id == 0 && dataset.embedder_id == 0)
            ==> r matches Err(PushTargetError::NotStandalone),
        (dataset.dataset_transform_id == 0 && dataset.source_dataset_id == 0 && dataset.embedder_id == 0) ==> match dataset.dimensions {
            Some(d) => r == Ok::<usize, PushTargetError>(d as usize),
            None => r matches Err(PushTargetError::DimensionsMissing),
        },
{
    if !dataset.is_standalone() {
        return Err(PushTargetError::NotStandalone);
    }
    match dataset.dimensions {
        Some(d) => Ok(d as usize),
        None => Err(PushTargetError::DimensionsMissing),
    }
}

/// The message of a push target error.
pub fn push_target_error_message(e: &PushTargetError) -> (r: &'static str)
    ensures
        r@ == match *e {
            PushTargetError::NotStandalone => "Cannot push vectors to transform-based embedded datasets. Use standalone datasets instead."@,
            PushTargetError::DimensionsMissing => "Dataset dimensions not configured"@,
        },
{
    match e {
        PushTargetError::NotStandalone => "Cannot push vectors to transform-based embedded datasets. Use standalone datasets instead.",
        PushTargetError::DimensionsMissing => "Dataset dimensions not configured",
    }
}

/// The message for a point of the wrong size.
pub open spec fn dimension_mismatch_message(index: nat, actual: nat, expected: nat) -> Seq<char> {
    "Point "@ + decimal(index) + " has "@ + decimal(actual) + " dimensions, expected "@ + decimal(expected)
}

/// Checks that every pushed point has the expected number of dimensions;
/// the first point that does not is reported.
pub fn check_point_dimensions(point_dimensions: &[usize], expected: usize) -> (r: Result<(), ErrorBody>)
    ensures
        r is Ok <==> forall|i: int| 0 <= i < point_dimensions@.len() ==> #[trigger] point_dimensions@[i] == expected,
        r matches Err(e) ==> e.status == 400 && exists|i: int|
            0 <= i < point_dimensions@.len() && #[trigger] point_dimensions@[i] != expected && (forall|j: int|
                0 <= j < i ==> point_dimensions@[j] == expected) && e.message@ == dimension_mismatch_message(
                i as nat,
                point_dimensions@[i] as nat,
                expected as nat,
            ),
{
    let mut i: usize = 0;
    while i < point_dimensions.len()
        invariant
            i <= point_dimensions.len(),
            forall|j: int| 0 <= j < i ==> point_dimensions@[j] == expected,
        decreases point_dimensions.len() - i,
    {
        if point_dimensions[i] != expected {
            let mut v: Vec<char> = Vec::new();
            append_str(&mut v, "Point ");
            append_chars(&mut v, decimal_chars(i as u64).as_slice());
            append_str(&mut v, " has ");
            append_chars(&mut v, decimal_chars(point_dimensions[i] as u64).as_slice());
            append_str(&mut v, " dimensions, expected ");
            append_chars(&mut v, decimal_chars(expected as u64).as_slice());
            let msg = chars_to_string(v.as_slice());
            let e = bad_request(msg.as_str());
            assert(point_dimensions@[i as int] != expected);
            return Err(e);
        }
        i = i + 1;
    }
    Ok(())
}

} // verus!
