//! Validation of new transforms against the resources they refer to.
use vstd::prelude::*;
use crate::text::{append_chars, append_str, chars_to_string, decimal_i64_chars, decimal_int, str_to_chars};

verus! {

/// The first requested embedder that was not found among the user's
/// embedders, if any.
pub fn first_missing_embedder(requested: &[i32], found: &[i32]) -> (r: Option<i32>)
    ensures
        r is None <==> forall|j: int| 0 <= j < requested@.len() ==> found@.contains(#[trigger] requested@[j]),
        r matches Some(id) ==> exists|j: int|
            0 <= j < requested@.len() && #[trigger] requested@[j] == id && !found@.contains(id)
                && forall|k: int| 0 <= k < j ==> found@.contains(#[trigger] requested@[k]),
{
    let mut i: usize = 0;
    while i < requested.len()
        invariant
            i <= requested.len(),
            forall|k: int| 0 <= k < i ==> found@.contains(#[trigger] requested@[k]),
        decreases requested.len() - i,
    {
        let id = requested[i];
        let mut present = false;
        let mut k: usize = 0;
        while k < found.len()
            invariant
                k <= found.len(),
                present <==> exists|m: int| 0 <= m < k && found@[m] == id,
            decreases found.len() - k,
        {
            if found[k] == id {
                present = true;
            }
            k = k + 1;
        }
        if !present {
            assert(!found@.contains(id));
            assert(requested@[i as int] == id);
            return Some(id);
        }
        i = i + 1;
    }
    None
}

/// The message for an embedder that is not the user's.
pub fn missing_embedder_message(embedder_id: i32) -> (r: String)
    ensures
        r@ == "embedder "@ + decimal_int(embedder_id as int) + " not found or access denied"@,
{
    let mut out: Vec<char> = Vec::new();
    append_str(&mut out, "embedder ");
    append_chars(&mut out, decimal_i64_chars(embedder_id as i64).as_slice());
    append_str(&mut out, " not found or access denied");
    chars_to_string(out.as_slice())
}

/// A visualization is built on a vector storage transform that embeds with
/// the chosen embedder.
pub open spec fn visualization_source_error(
    source_job_type: Seq<char>,
    source_embedder_ids: Option<Seq<i32>>,
    embedder_id: i32,
) -> Option<Seq<char>> {
    if source_job_type != "dataset_to_vector_storage"@ {
        Some("source transform must be of type dataset_to_vector_storage"@)
    } else {
        match source_embedder_ids {
            Some(ids) => if ids.contains(embedder_id) {
                None
            } else {
                Some("embedder not configured in source transform"@)
            },
            None => Some("source transform has no embedders configured"@),
        }
    }
}

/// Checks the source transform of a new visualization; the error is a
/// bad request.
pub fn check_visualization_source(
    source_job_type: &str,
    source_embedder_ids: Option<&[i32]>,
    embedder_id: i32,
) -> (r: Result<(), String>)
    ensures
        match visualization_source_error(
            source_job_type@,
            match source_embedder_ids {
                Some(ids) => Some(ids@),
                None => None,
            },
            embedder_id,
        ) {
            None => r is Ok,
            Some(m) => r matches Err(e) && e@ == m,
        },
{
    let t = str_to_chars(source_job_type);
    if !crate::text::chars_eq_str(t.as_slice(), "dataset_to_vector_storage") {
        return Err("source transform must be of type dataset_to_vector_storage".to_string());
    }
    match source_embedder_ids {
        Some(ids) => {
            let mut k: usize = 0;
            while k < ids.len()
                invariant
                    k <= ids.len(),
                    source_job_type@ == "dataset_to_vector_storage"@,
                    source_embedder_ids == Some(ids),
                    forall|m: int| 0 <= m < k ==> ids@[m] != embedder_id,
                decreases ids.len() - k,
            {
                if ids[k] == embedder_id {
                    assert(ids@[k as int] == embedder_id);
                    assert(ids@.contains(embedder_id));
                    return Ok(());
                }
                k = k + 1;
            }
            Err("embedder not configured in source transform".to_string())
        },
        None => Err("source transform has no embedders configured".to_string()),
    }
}

/// Which statistics a transform reports.
pub enum TransformStatsQuery {
    /// Embedding transforms: batch and chunk counts.
    Embedding,
    /// Collection transforms: file counts against the files in the
    /// collection.
    CollectionFiles(i32),
    /// A collection transform without its collection: an internal error.
    MissingCollection,
    /// Any other transform: the standard file counts.
    Standard,
}

/// Chooses the statistics of a transform from its job type and collection.
pub fn transform_stats_query(job_type: &str, collection_id: Option<i32>) -> (r: TransformStatsQuery)
    ensures
        job_type@ == "dataset_to_vector_storage"@ ==> r is Embedding,
        job_type@ == "collection_to_dataset"@ ==> match collection_id {
            Some(c) => r == TransformStatsQuery::CollectionFiles(c),
            None => r is MissingCollection,
        },
        job_type@ != "dataset_to_vector_storage"@ && job_type@ != "collection_to_dataset"@ ==> r is Standard,
{
    proof {
        reveal_strlit("dataset_to_vector_storage");
        reveal_strlit("collection_to_dataset");
        assert("dataset_to_vector_storage"@.len() != "collection_to_dataset"@.len());
    }
    let t = str_to_chars(job_type);
    if crate::text::chars_eq_str(t.as_slice(), "dataset_to_vector_storage") {
        TransformStatsQuery::Embedding
    } else if crate::text::chars_eq_str(t.as_slice(), "collection_to_dataset") {
        match collection_id {
            Some(c) => TransformStatsQuery::CollectionFiles(c),
            None => TransformStatsQuery::MissingCollection,
        }
    } else {
        TransformStatsQuery::Standard
    }
}

/// A new transform, as requested.
pub enum TransformRequest {
    /// Extract a collection's files into a dataset.
    CollectionToDataset { collection_id: i32, dataset_id: i32, chunk_size: i32 },
    /// Embed a dataset with the given embedders.
    DatasetToVectorStorage {
        dataset_id: i32,
        embedder_ids: Vec<i32>,
        embedding_batch_size: Option<i32>,
        wipe_collection: bool,
    },
    /// Visualize a dataset from the vectors of an embedding transform.
    DatasetVisualization { source_transform_id: i32, source_embedder_id: i32, dataset_id: i32 },
}

/// The job configuration stored with a new transform.
pub enum JobConfigPlan {
    /// The request's own job configuration.
    Given,
    /// The batch size when one was given, and the wipe flag when it is set.
    VectorStorage { embedding_batch_size: Option<i32>, wipe_collection: bool },
    /// The request's visualization configuration.
    Visualization,
}

/// The record of a new transform.
pub struct TransformPlan {
    pub collection_id: Option<i32>,
    pub dataset_id: i32,
    pub chunk_size: i32,
    pub job_type: &'static str,
    pub source_dataset_id: Option<i32>,
    pub target_dataset_id: Option<i32>,
    pub source_transform_id: Option<i32>,
    pub embedder_ids: Option<Vec<i32>>,
    pub job_config: JobConfigPlan,
}

/// The record of a new transform: its job type, the resources it reads and
/// writes, its embedders and its job configuration. Only collection
/// transforms have a chunk size; embedding transforms read their dataset;
/// visualizations use their source transform with the one embedder chosen.
pub fn transform_plan(request: TransformRequest) -> (r: TransformPlan)
    ensures
        r.target_dataset_id is None,
        match request {
            TransformRequest::CollectionToDataset { collection_id, dataset_id, chunk_size } => {
                &&& r.job_type@ == "collection_to_dataset"@
                &&& r.collection_id == Some(collection_id) && r.dataset_id == dataset_id
                &&& r.chunk_size == chunk_size
                &&& r.source_dataset_id is None && r.source_transform_id is None
                &&& r.embedder_ids is None && r.job_config is Given
            },
            TransformRequest::DatasetToVectorStorage {
                dataset_id,
                embedder_ids,
                embedding_batch_size,
                wipe_collection,
            } => {
                &&& r.job_type@ == "dataset_to_vector_storage"@
                &&& r.collection_id is None && r.dataset_id == dataset_id && r.chunk_size == 0
                &&& r.source_dataset_id == Some(dataset_id) && r.source_transform_id is None
                &&& r.embedder_ids matches Some(ids) && ids@ == embedder_ids@
                &&& r.job_config == (JobConfigPlan::VectorStorage { embedding_batch_size, wipe_collection })
            },
            TransformRequest::DatasetVisualization { source_transform_id, source_embedder_id, dataset_id } => {
                &&& r.job_type@ == "dataset_visualization_transform"@
                &&& r.collection_id is None && r.dataset_id == dataset_id && r.chunk_size == 0
                &&& r.source_dataset_id is None && r.source_transform_id == Some(source_transform_id)
                &&& r.embedder_ids matches Some(ids) && ids@ == seq![source_embedder_id]
                &&& r.job_config is Visualization
            },
        },
{
    match request {
        TransformRequest::CollectionToDataset { collection_id, dataset_id, chunk_size } => TransformPlan {
            collection_id: Some(collection_id),
            dataset_id,
            chunk_size,
            job_type: "collection_to_dataset",
            source_dataset_id: None,
            target_dataset_id: None,
            source_transform_id: None,
            embedder_ids: None,
            job_config: JobConfigPlan::Given,
        },
        TransformRequest::DatasetToVectorStorage {
            dataset_id,
            embedder_ids,
            embedding_batch_size,
            wipe_collection,
        } => TransformPlan {
            collection_id: None,
            dataset_id,
            chunk_size: 0,
            job_type: "dataset_to_vector_storage",
            source_dataset_id: Some(dataset_id),
            target_dataset_id: None,
            source_transform_id: None,
            embedder_ids: Some(embedder_ids),
            job_config: JobConfigPlan::VectorStorage { embedding_batch_size, wipe_collection },
        },
        TransformRequest::DatasetVisualization { source_transform_id, source_embedder_id, dataset_id } => {
            let mut ids: Vec<i32> = Vec::new();
            ids.push(source_embedder_id);
            TransformPlan {
                collection_id: None,
                dataset_id,
                chunk_size: 0,
                job_type: "dataset_visualization_transform",
                source_dataset_id: None,
                target_dataset_id: None,
                source_transform_id: Some(source_transform_id),
                embedder_ids: Some(ids),
                job_config: JobConfigPlan::Visualization,
            }
        },
    }
}

/// The collections a new transform is mapped to once it exists.
pub enum CollectionMappingPlan {
    /// One vector collection per embedder.
    PerEmbedder(Vec<i32>),
    /// The reduced vectors and the topics of a visualization, for its
    /// embedder: keys "reduced" and "topics", with collection name suffixes
    /// "reduced" and "reduced-topics".
    Visualization { embedder_id: i32 },
    /// No mapping is written.
    Unchanged,
}

/// A copy of the embedder ids.
fn copy_ids(ids: &[i32]) -> (r: Vec<i32>)
    ensures
        r@ == ids@,
{
    let mut out: Vec<i32> = Vec::new();
    let mut k: usize = 0;
    while k < ids.len()
        invariant
            k <= ids@.len(),
            out@ == ids@.take(k as int),
        decreases ids@.len() - k,
    {
        out.push(ids[k]);
        assert(ids@.take(k as int).push(ids@[k as int]) =~= ids@.take(k as int + 1));
        k = k + 1;
    }
    assert(ids@.take(ids@.len() as int) =~= ids@);
    out
}

/// Chooses the collection mappings of a created transform from its job type
/// and its stored embedders.
pub fn collection_mapping_plan(job_type: &str, embedder_ids: Option<&[i32]>) -> (r: CollectionMappingPlan)
    ensures
        job_type@ == "dataset_to_vector_storage"@ && embedder_ids is Some ==> (r matches CollectionMappingPlan::PerEmbedder(ids)
            && ids@ == embedder_ids->0@),
        job_type@ == "dataset_visualization_transform"@ && embedder_ids is Some && embedder_ids->0@.len() > 0
            ==> r == (CollectionMappingPlan::Visualization { embedder_id: embedder_ids->0@[0] }),
        !(job_type@ == "dataset_to_vector_storage"@ && embedder_ids is Some) && !(job_type@
            == "dataset_visualization_transform"@ && embedder_ids is Some && embedder_ids->0@.len() > 0)
            ==> r is Unchanged,
{
    proof {
        reveal_strlit("dataset_to_vector_storage");
        reveal_strlit("dataset_visualization_transform");
        assert("dataset_to_vector_storage"@.len() != "dataset_visualization_transform"@.len());
    }
    let t = str_to_chars(job_type);
    if crate::text::chars_eq_str(t.as_slice(), "dataset_to_vector_storage") {
        match embedder_ids {
            Some(ids) => CollectionMappingPlan::PerEmbedder(copy_ids(ids)),
            None => CollectionMappingPlan::Unchanged,
        }
    } else if crate::text::chars_eq_str(t.as_slice(), "dataset_visualization_transform") {
        match embedder_ids {
            Some(ids) => if ids.len() > 0 {
                CollectionMappingPlan::Visualization { embedder_id: ids[0] }
            } else {
                CollectionMappingPlan::Unchanged
            },
            None => CollectionMappingPlan::Unchanged,
        }
    } else {
        CollectionMappingPlan::Unchanged
    }
}

/// Collection and embedding transforms start with a scan job; other
/// transforms are started by hand.
pub fn enqueues_scan_job(job_type: &str) -> (r: bool)
    ensures
        r == (job_type@ == "collection_to_dataset"@ || job_type@ == "dataset_to_vector_storage"@),
{
    let t = str_to_chars(job_type);
    crate::text::chars_eq_str(t.as_slice(), "collection_to_dataset") || crate::text::chars_eq_str(
        t.as_slice(),
        "dataset_to_vector_storage",
    )
}

/// The message for a transform that could not be stored.
pub fn create_failure_message(error: &str) -> (r: String)
    ensures
        r@ == "failed to create transform: "@ + error@,
{
    let mut out: Vec<char> = Vec::new();
    append_str(&mut out, "failed to create transform: ");
    append_str(&mut out, error);
    chars_to_string(out.as_slice())
}


/// The counts of an embedding transform.
pub struct EmbeddingTransformStats {
    pub transform_id: i32,
    pub total_items_processed: i64,
    pub successful_items: i64,
    pub failed_items: i64,
    pub total_chunks_embedded: i64,
    pub total_chunks_failed: i64,
}

/// The file counts of a collection or standard transform.
pub struct FileTransformStats {
    pub transform_id: i32,
    pub total_files_processed: i64,
    pub successful_files: i64,
    pub failed_files: i64,
    pub total_items_created: i64,
}

/// What was found out about a transform's statistics: the lookup of the
/// transform failed, or the answers of the queries its statistics need
/// (`None` where no statistics were recorded yet).
pub enum StatsOutcome {
    /// The transform does not exist or belongs to someone else.
    NotFound,
    /// An embedding transform's counts.
    Embedding(Result<Option<EmbeddingTransformStats>, String>),
    /// A collection transform: the lookup of its collection, the count of
    /// the collection's files, and its counts.
    Collection {
        collection: Result<(), String>,
        file_count: Result<i64, String>,
        stats: Result<Option<FileTransformStats>, String>,
    },
    /// A collection transform without its collection.
    MissingCollection,
    /// Any other transform's counts.
    Standard(Result<Option<FileTransformStats>, String>),
}

/// The body of a statistics reply.
pub enum StatsBody {
    Embedding(EmbeddingTransformStats),
    FilesWithTotal { total_files_in_collection: i64, stats: FileTransformStats },
    Files(FileTransformStats),
    Error(String),
}

/// A statistics reply: HTTP status and body.
pub struct StatsReply {
    pub status: u16,
    pub body: StatsBody,
}

/// Embedding counts of a transform with nothing recorded yet.
pub open spec fn zero_embedding_stats(transform_id: i32) -> EmbeddingTransformStats {
    EmbeddingTransformStats {
        transform_id,
        total_items_processed: 0,
        successful_items: 0,
        failed_items: 0,
        total_chunks_embedded: 0,
        total_chunks_failed: 0,
    }
}

/// File counts of a transform with nothing recorded yet.
pub open spec fn zero_file_stats(transform_id: i32) -> FileTransformStats {
    FileTransformStats {
        transform_id,
        total_files_processed: 0,
        successful_files: 0,
        failed_files: 0,
        total_items_created: 0,
    }
}

/// `r` is the 500 reply with message `m`.
pub open spec fn is_error_reply(r: StatsReply, status: u16, m: Seq<char>) -> bool {
    &&& r.status == status
    &&& r.body matches StatsBody::Error(x)
    &&& x@ == m
}

fn fixed_error_reply(status: u16, message: &str) -> (r: StatsReply)
    ensures
        is_error_reply(r, status, message@),
{
    StatsReply { status, body: StatsBody::Error(message.to_string()) }
}

fn error_reply(status: u16, prefix: &str, detail: &str) -> (r: StatsReply)
    ensures
        is_error_reply(r, status, prefix@ + detail@),
{
    let mut v: Vec<char> = Vec::new();
    append_str(&mut v, prefix);
    append_str(&mut v, detail);
    StatsReply { status, body: StatsBody::Error(chars_to_string(v.as_slice())) }
}

/// The reply to a statistics request for transform `transform_id`:
/// 404 when the transform was not found; 500 for a collection transform
/// without collection, a failed collection lookup or a failed query; 200
/// with the counts otherwise, all counts 0 (and the requested id) where
/// nothing was recorded yet. A failed file count counts as 0 files.
pub fn transform_stats_reply(transform_id: i32, outcome: StatsOutcome) -> (r: StatsReply)
    ensures
        match outcome {
            StatsOutcome::NotFound => is_error_reply(r, 404, "transform not found or access denied"@),
            StatsOutcome::MissingCollection => is_error_reply(
                r,
                500,
                "collection_to_dataset transform missing collection_id"@,
            ),
            StatsOutcome::Embedding(q) => match q {
                Err(e) => is_error_reply(r, 500, "failed to fetch statistics: "@ + e@),
                Ok(Some(s)) => r.status == 200 && r.body == StatsBody::Embedding(s),
                Ok(None) => r.status == 200 && r.body == StatsBody::Embedding(zero_embedding_stats(transform_id)),
            },
            StatsOutcome::Collection { collection, file_count, stats } => match collection {
                Err(e) => is_error_reply(r, 500, "failed to fetch collection: "@ + e@),
                Ok(()) => {
                    let total = match file_count {
                        Ok(n) => n,
                        Err(_) => 0i64,
                    };
                    match stats {
                        Err(e) => is_error_reply(r, 500, "failed to fetch statistics: "@ + e@),
                        Ok(Some(s)) => r.status == 200 && r.body == (StatsBody::FilesWithTotal {
                            total_files_in_collection: total,
                            stats: s,
                        }),
                        Ok(None) => r.status == 200 && r.body == (StatsBody::FilesWithTotal {
                            total_files_in_collection: total,
                            stats: zero_file_stats(transform_id),
                        }),
                    }
                },
            },
            StatsOutcome::Standard(q) => match q {
                Err(e) => is_error_reply(r, 500, "failed to fetch statistics: "@ + e@),
                Ok(Some(s)) => r.status == 200 && r.body == StatsBody::Files(s),
                Ok(None) => r.status == 200 && r.body == StatsBody::Files(zero_file_stats(transform_id)),
            },
        },
{
    match outcome {
        StatsOutcome::NotFound => fixed_error_reply(404, "transform not found or access denied"),
        StatsOutcome::MissingCollection => fixed_error_reply(500, "collection_to_dataset transform missing collection_id"),
        StatsOutcome::Embedding(q) => match q {
            Err(e) => error_reply(500, "failed to fetch statistics: ", e.as_str()),
            Ok(Some(s)) => StatsReply { status: 200, body: StatsBody::Embedding(s) },
            Ok(None) => StatsReply {
                status: 200,
                body: StatsBody::Embedding(
                    EmbeddingTransformStats {
                        transform_id,
                        total_items_processed: 0,
                        successful_items: 0,
                        failed_items: 0,
                        total_chunks_embedded: 0,
                        total_chunks_failed: 0,
                    },
                ),
            },
        },
        StatsOutcome::Collection { collection, file_count, stats } => match collection {
            Err(e) => error_reply(500, "failed to fetch collection: ", e.as_str()),
            Ok(()) => {
                let total: i64 = match file_count {
                    Ok(n) => n,
                    Err(_) => 0,
                };
                match stats {
                    Err(e) => error_reply(500, "failed to fetch statistics: ", e.as_str()),
                    Ok(Some(s)) => StatsReply {
                        status: 200,
                        body: StatsBody::FilesWithTotal { total_files_in_collection: total, stats: s },
                    },
                    Ok(None) => StatsReply {
                        status: 200,
                        body: StatsBody::FilesWithTotal {
                            total_files_in_collection: total,
                            stats: FileTransformStats {
                                transform_id,
                                total_files_processed: 0,
                                successful_files: 0,
                                failed_files: 0,
                                total_items_created: 0,
                            },
                        },
                    },
                }
            },
        },
        StatsOutcome::Standard(q) => match q {
            Err(e) => error_reply(500, "failed to fetch statistics: ", e.as_str()),
            Ok(Some(s)) => StatsReply { status: 200, body: StatsBody::Files(s) },
            Ok(None) => StatsReply {
                status: 200,
                body: StatsBody::Files(
                    FileTransformStats {
                        transform_id,
                        total_files_processed: 0,
                        successful_files: 0,
                        failed_files: 0,
                        total_items_created: 0,
                    },
                ),
            },
        },
    }
}

} // verus!
