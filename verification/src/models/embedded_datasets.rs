//! Embedded dataset records and the requests and replies about them.
use vstd::prelude::*;
use crate::text::{append_chars, append_str, chars_to_string, decimal_i64_chars, decimal_int};

verus! {

/// Listing parameters of embedded datasets.
pub struct EmbeddedDatasetListQuery {
    pub search: Option<String>,
    pub limit: i64,
    pub offset: i64,
}

/// The default page size of the embedded dataset listing: 20.
pub fn default_limit() -> (r: i64)
    ensures
        r == 20,
{
    20
}

/// Request to create a standalone embedded dataset.
pub struct CreateStandaloneEmbeddedDatasetRequest {
    pub title: String,
    pub dimensions: i32,
}

/// Response after pushing vectors.
pub struct PushVectorsResponse {
    pub points_inserted: usize,
    pub collection_name: String,
}

/// An embedded dataset. Times are held as RFC 3339 text.
pub struct EmbeddedDataset {
    pub embedded_dataset_id: i32,
    pub title: String,
    /// Parent dataset transform (0 for standalone datasets).
    pub dataset_transform_id: i32,
    /// Source dataset (0 for standalone datasets).
    pub source_dataset_id: i32,
    /// Embedder (0 for standalone datasets).
    pub embedder_id: i32,
    pub owner_id: String,
    pub owner_display_name: String,
    pub collection_name: String,
    pub dimensions: Option<i32>,
    pub created_at: String,
    pub updated_at: String,
    pub last_processed_at: Option<String>,
    pub last_processed_item_id: Option<i32>,
    pub source_dataset_version: Option<String>,
}

impl EmbeddedDataset {
    /// The vector collection name of an embedded dataset:
    /// "embedded-dataset-{id}-{owner}".
    pub fn generate_collection_name(embedded_dataset_id: i32, owner: &str) -> (r: String)
        ensures
            r@ == "embedded-dataset-"@ + decimal_int(embedded_dataset_id as int) + "-"@ + owner@,
    {
        let mut v: Vec<char> = Vec::new();
        append_str(&mut v, "embedded-dataset-");
        append_chars(&mut v, decimal_i64_chars(embedded_dataset_id as i64).as_slice());
        append_str(&mut v, "-");
        append_str(&mut v, owner);
        chars_to_string(v.as_slice())
    }

    /// Standalone datasets have no transform, source dataset or embedder.
    pub fn is_standalone(&self) -> (r: bool)
        ensures
            r == (self.dataset_transform_id == 0 && self.source_dataset_id == 0 && self.embedder_id == 0),
    {
        self.dataset_transform_id == 0 && self.source_dataset_id == 0 && self.embedder_id == 0
    }
}

} // verus!
