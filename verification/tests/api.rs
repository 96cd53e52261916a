use semantic_explorer_api::api::ui::ui_redirect_target;
use semantic_explorer_api::api::embedded_datasets::{
    check_point_dimensions, default_embedded_datasets_limit, default_limit as points_default_limit,
    default_processed_batches_limit, push_target_dimensions, push_target_error_message,
    validate_point_count, validate_standalone_dimensions, PushTargetError,
};
use semantic_explorer_api::api::marketplace::{
    default_marketplace_limit, marketplace_page, recent_limit, MarketplacePaginationParams,
};
use semantic_explorer_api::api::pagination::{clamp_i64, normalize_search, page_bounds};
use semantic_explorer_api::api::sessions::{revoke_decision, session_list, RevokeDecision, SessionInfo};
use semantic_explorer_api::api::{collection_transforms, dataset_transforms, visualization_transforms};
use semantic_explorer_api::models::embedded_datasets::EmbeddedDataset;

#[test]
fn transform_listing_defaults() {
    assert_eq!(collection_transforms::default_limit(), 10);
    assert_eq!(collection_transforms::default_sort_by(), "created_at");
    assert_eq!(collection_transforms::default_sort_direction(), "desc");
    assert_eq!(dataset_transforms::default_limit(), 10);
    assert_eq!(dataset_transforms::default_sort_by(), "created_at");
    assert_eq!(dataset_transforms::default_sort_direction(), "desc");
    assert_eq!(visualization_transforms::default_limit(), 10);
    assert_eq!(visualization_transforms::default_sort_by(), "created_at");
    assert_eq!(visualization_transforms::default_sort_direction(), "desc");
    assert_eq!(visualization_transforms::default_pagination_limit(), 50);
    assert_eq!(visualization_transforms::recent_visualizations_limit(0), 1);
    assert_eq!(visualization_transforms::recent_visualizations_limit(500), 100);
    assert_eq!(visualization_transforms::recent_visualizations_limit(7), 7);
}

#[test]
fn pagination() {
    assert_eq!(clamp_i64(-5, 1, 10), 1);
    assert_eq!(clamp_i64(50, 1, 10), 10);
    assert_eq!(clamp_i64(5, 1, 10), 5);
    assert_eq!(page_bounds(0, -3, 1, 200), (1, 0));
    assert_eq!(page_bounds(300, 40, 1, 200), (200, 40));
    assert_eq!(normalize_search(&Some("  term \n".to_string())), Some("term".to_string()));
    assert_eq!(normalize_search(&Some("   ".to_string())), None);
    assert_eq!(normalize_search(&None), None);
}

#[test]
fn marketplace_parameters() {
    assert_eq!(default_marketplace_limit(), 50);
    assert_eq!(marketplace_page(&MarketplacePaginationParams { limit: 1000, offset: -1 }), (200, 0));
    assert_eq!(marketplace_page(&MarketplacePaginationParams { limit: 0, offset: 10 }), (1, 10));
    assert_eq!(recent_limit(None), 5);
    assert_eq!(recent_limit(Some(-4)), 0);
    assert_eq!(recent_limit(Some(1000)), 100);
}

#[test]
fn sessions() {
    let s = SessionInfo::from_session("id".to_string(), 1, 2, 3, None, Some("ua".to_string()));
    assert!(!s.is_current);
    let list = session_list(vec![s]);
    assert_eq!(list.total, 1);
    assert!(matches!(revoke_decision(None, "u"), RevokeDecision::NotFound));
    assert!(matches!(revoke_decision(Some("v"), "u"), RevokeDecision::Forbidden));
    assert!(matches!(revoke_decision(Some("u"), "u"), RevokeDecision::Revoke));
}

fn dataset(transform: i32, dims: Option<i32>) -> EmbeddedDataset {
    EmbeddedDataset {
        embedded_dataset_id: 1,
        title: "t".to_string(),
        dataset_transform_id: transform,
        source_dataset_id: 0,
        embedder_id: 0,
        owner_id: "o".to_string(),
        owner_display_name: "O".to_string(),
        collection_name: "c".to_string(),
        dimensions: dims,
        created_at: "x".to_string(),
        updated_at: "y".to_string(),
        last_processed_at: None,
        last_processed_item_id: None,
        source_dataset_version: None,
    }
}

#[test]
fn embedded_dataset_rules() {
    assert_eq!(default_embedded_datasets_limit(), 50);
    assert_eq!(default_processed_batches_limit(), 100);
    assert_eq!(points_default_limit(), 10);
    assert!(validate_standalone_dimensions(1).is_ok());
    assert!(validate_standalone_dimensions(65536).is_ok());
    let e = validate_standalone_dimensions(0).err().unwrap();
    assert_eq!((e.status, e.message.as_str()), (400, "Dimensions must be between 1 and 65536"));
    assert!(validate_standalone_dimensions(65537).is_err());
    assert_eq!(validate_point_count(0).err().unwrap().message, "At least one point must be provided");
    assert_eq!(validate_point_count(1001).err().unwrap().message, "Maximum 1000 points per request");
    assert!(validate_point_count(1000).is_ok());
    assert!(dataset(0, Some(3)).is_standalone());
    assert!(!dataset(5, Some(3)).is_standalone());
    assert!(matches!(push_target_dimensions(&dataset(0, Some(3))), Ok(3)));
    assert!(matches!(push_target_dimensions(&dataset(5, Some(3))), Err(PushTargetError::NotStandalone)));
    assert!(matches!(push_target_dimensions(&dataset(0, None)), Err(PushTargetError::DimensionsMissing)));
    assert_eq!(push_target_error_message(&PushTargetError::DimensionsMissing), "Dataset dimensions not configured");
    assert!(check_point_dimensions(&[3, 3, 3], 3).is_ok());
    let err = check_point_dimensions(&[3, 2, 4], 3).err().unwrap();
    assert_eq!((err.status, err.message.as_str()), (400, "Point 1 has 2 dimensions, expected 3"));
}

#[test]
fn ui_redirects() {
    assert_eq!(ui_redirect_target("http://host/"), "http://host/ui");
    assert_eq!(ui_redirect_target("http://host"), "http://host/ui");
    assert_eq!(ui_redirect_target("/"), "/ui");
}
