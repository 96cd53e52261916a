use semantic_explorer_api::api::transforms::{
    check_visualization_source, collection_mapping_plan, create_failure_message, enqueues_scan_job,
    first_missing_embedder, missing_embedder_message, transform_plan, transform_stats_query,
    CollectionMappingPlan, JobConfigPlan, TransformRequest, TransformStatsQuery,
};
use semantic_explorer_api::api::transforms::{
    transform_stats_reply, EmbeddingTransformStats, FileTransformStats, StatsBody, StatsOutcome,
};

#[test]
fn missing_embedders() {
    assert_eq!(first_missing_embedder(&[1, 2, 3], &[3, 1, 2]), None);
    assert_eq!(first_missing_embedder(&[1, 4, 5], &[1, 2]), Some(4));
    assert_eq!(first_missing_embedder(&[], &[]), None);
    assert_eq!(missing_embedder_message(4), "embedder 4 not found or access denied");
}

#[test]
fn visualization_sources() {
    assert_eq!(check_visualization_source("dataset_to_vector_storage", Some(&[1, 2]), 2), Ok(()));
    assert_eq!(
        check_visualization_source("collection_to_dataset", Some(&[2]), 2),
        Err("source transform must be of type dataset_to_vector_storage".to_string())
    );
    assert_eq!(
        check_visualization_source("dataset_to_vector_storage", Some(&[1]), 2),
        Err("embedder not configured in source transform".to_string())
    );
    assert_eq!(
        check_visualization_source("dataset_to_vector_storage", None, 2),
        Err("source transform has no embedders configured".to_string())
    );
}

#[test]
fn stats_queries() {
    assert!(matches!(transform_stats_query("dataset_to_vector_storage", None), TransformStatsQuery::Embedding));
    assert!(matches!(transform_stats_query("collection_to_dataset", Some(4)), TransformStatsQuery::CollectionFiles(4)));
    assert!(matches!(transform_stats_query("collection_to_dataset", None), TransformStatsQuery::MissingCollection));
    assert!(matches!(transform_stats_query("dataset_visualization_transform", Some(1)), TransformStatsQuery::Standard));
}

#[test]
fn transform_records() {
    let c = transform_plan(TransformRequest::CollectionToDataset { collection_id: 3, dataset_id: 4, chunk_size: 200 });
    assert_eq!(c.job_type, "collection_to_dataset");
    assert_eq!(c.collection_id, Some(3));
    assert_eq!(c.dataset_id, 4);
    assert_eq!(c.chunk_size, 200);
    assert_eq!(c.source_dataset_id, None);
    assert_eq!(c.embedder_ids, None);
    assert!(matches!(c.job_config, JobConfigPlan::Given));

    let v = transform_plan(TransformRequest::DatasetToVectorStorage {
        dataset_id: 9,
        embedder_ids: vec![1, 2],
        embedding_batch_size: Some(64),
        wipe_collection: true,
    });
    assert_eq!(v.job_type, "dataset_to_vector_storage");
    assert_eq!(v.collection_id, None);
    assert_eq!(v.source_dataset_id, Some(9));
    assert_eq!(v.chunk_size, 0);
    assert_eq!(v.embedder_ids, Some(vec![1, 2]));
    assert!(matches!(
        v.job_config,
        JobConfigPlan::VectorStorage { embedding_batch_size: Some(64), wipe_collection: true }
    ));

    let z = transform_plan(TransformRequest::DatasetVisualization {
        source_transform_id: 11,
        source_embedder_id: 2,
        dataset_id: 9,
    });
    assert_eq!(z.job_type, "dataset_visualization_transform");
    assert_eq!(z.source_transform_id, Some(11));
    assert_eq!(z.embedder_ids, Some(vec![2]));
    assert_eq!(z.target_dataset_id, None);
    assert!(matches!(z.job_config, JobConfigPlan::Visualization));
}

#[test]
fn collection_mappings_and_scans() {
    match collection_mapping_plan("dataset_to_vector_storage", Some(&[5, 6][..])) {
        CollectionMappingPlan::PerEmbedder(ids) => assert_eq!(ids, vec![5, 6]),
        _ => panic!("expected one mapping per embedder"),
    }
    assert!(matches!(
        collection_mapping_plan("dataset_visualization_transform", Some(&[8, 9][..])),
        CollectionMappingPlan::Visualization { embedder_id: 8 }
    ));
    assert!(matches!(
        collection_mapping_plan("dataset_visualization_transform", Some(&[][..])),
        CollectionMappingPlan::Unchanged
    ));
    assert!(matches!(collection_mapping_plan("collection_to_dataset", Some(&[1][..])), CollectionMappingPlan::Unchanged));
    assert!(matches!(collection_mapping_plan("dataset_to_vector_storage", None), CollectionMappingPlan::Unchanged));
    assert!(enqueues_scan_job("collection_to_dataset"));
    assert!(enqueues_scan_job("dataset_to_vector_storage"));
    assert!(!enqueues_scan_job("dataset_visualization_transform"));
    assert_eq!(create_failure_message("duplicate key"), "failed to create transform: duplicate key");
}

fn error_of(r: &StatsBody) -> String {
    match r {
        StatsBody::Error(m) => m.clone(),
        _ => panic!("expected an error body"),
    }
}

#[test]
fn stats_replies() {
    let r = transform_stats_reply(7, StatsOutcome::NotFound);
    assert_eq!(r.status, 404);
    assert_eq!(error_of(&r.body), "transform not found or access denied");

    let r = transform_stats_reply(7, StatsOutcome::MissingCollection);
    assert_eq!(r.status, 500);
    assert_eq!(error_of(&r.body), "collection_to_dataset transform missing collection_id");

    let r = transform_stats_reply(7, StatsOutcome::Embedding(Ok(None)));
    assert_eq!(r.status, 200);
    match r.body {
        StatsBody::Embedding(s) => {
            assert_eq!(s.transform_id, 7);
            assert_eq!(
                (s.total_items_processed, s.successful_items, s.failed_items, s.total_chunks_embedded, s.total_chunks_failed),
                (0, 0, 0, 0, 0)
            );
        }
        _ => panic!("expected embedding counts"),
    }

    let given = EmbeddingTransformStats {
        transform_id: 7,
        total_items_processed: 10,
        successful_items: 9,
        failed_items: 1,
        total_chunks_embedded: 80,
        total_chunks_failed: 2,
    };
    let r = transform_stats_reply(7, StatsOutcome::Embedding(Ok(Some(given))));
    assert!(matches!(r.body, StatsBody::Embedding(EmbeddingTransformStats { total_chunks_embedded: 80, .. })));

    let r = transform_stats_reply(7, StatsOutcome::Embedding(Err("db down".to_string())));
    assert_eq!(r.status, 500);
    assert_eq!(error_of(&r.body), "failed to fetch statistics: db down");

    let r = transform_stats_reply(
        8,
        StatsOutcome::Collection { collection: Err("gone".to_string()), file_count: Ok(3), stats: Ok(None) },
    );
    assert_eq!(r.status, 500);
    assert_eq!(error_of(&r.body), "failed to fetch collection: gone");

    let r = transform_stats_reply(
        8,
        StatsOutcome::Collection { collection: Ok(()), file_count: Err("s3".to_string()), stats: Ok(None) },
    );
    assert_eq!(r.status, 200);
    match r.body {
        StatsBody::FilesWithTotal { total_files_in_collection, stats } => {
            assert_eq!(total_files_in_collection, 0);
            assert_eq!(stats.transform_id, 8);
            assert_eq!(stats.total_files_processed, 0);
        }
        _ => panic!("expected file counts with total"),
    }

    let files = FileTransformStats {
        transform_id: 9,
        total_files_processed: 4,
        successful_files: 3,
        failed_files: 1,
        total_items_created: 12,
    };
    let r = transform_stats_reply(
        9,
        StatsOutcome::Collection { collection: Ok(()), file_count: Ok(5), stats: Ok(Some(files)) },
    );
    assert!(matches!(
        r.body,
        StatsBody::FilesWithTotal { total_files_in_collection: 5, stats: FileTransformStats { total_items_created: 12, .. } }
    ));

    let r = transform_stats_reply(10, StatsOutcome::Standard(Ok(None)));
    assert_eq!(r.status, 200);
    assert!(matches!(r.body, StatsBody::Files(FileTransformStats { transform_id: 10, successful_files: 0, .. })));
    let r = transform_stats_reply(10, StatsOutcome::Standard(Err("x".to_string())));
    assert_eq!(error_of(&r.body), "failed to fetch statistics: x");
}
