use semantic_explorer_api::errors::ApiError;
use semantic_explorer_api::search::{
    missing_dataset_title, search_failure_message, validate_search_request, DocumentSearch,
};

#[test]
fn request_validation() {
    match validate_search_request(0, "q") {
        Err(ApiError::BadRequest(m)) => assert_eq!(m, "At least one embedded dataset must be selected"),
        _ => panic!("expected bad request"),
    }
    match validate_search_request(2, "  \t ") {
        Err(ApiError::BadRequest(m)) => assert_eq!(m, "Query cannot be empty"),
        _ => panic!("expected bad request"),
    }
    assert!(validate_search_request(1, " q ").is_ok());
}

#[test]
fn failure_messages() {
    assert_eq!(
        search_failure_message("Collection `x` doesn't exist!"),
        "This embedded dataset has not been processed yet. Please wait for the embedding process to complete."
    );
    assert_eq!(
        search_failure_message("No collection named y"),
        "This embedded dataset has not been processed yet. Please wait for the embedding process to complete."
    );
    assert_eq!(search_failure_message("timeout"), "Search failed: timeout");
    assert_eq!(missing_dataset_title(12), "Embedded Dataset 12");
}

#[test]
fn document_search_stops_when_enough_documents() {
    let mut s = DocumentSearch::new(3);
    assert_eq!(s.next_offset(), 0);
    assert!(s.on_batch(&[Some(1), Some(1), None, Some(2)]));
    assert_eq!(s.next_offset(), 200);
    assert!(!s.on_batch(&[Some(2), Some(3)]));
}

#[test]
fn document_search_stops_on_empty_batch() {
    let mut s = DocumentSearch::new(10);
    assert!(!s.on_batch(&[]));
    assert_eq!(s.next_offset(), 0);
}

#[test]
fn document_search_fetches_at_most_fifty_batches() {
    let mut s = DocumentSearch::new(1000);
    let mut batches = 1;
    while s.on_batch(&[None]) {
        batches += 1;
    }
    assert_eq!(batches, 50);
    assert_eq!(s.next_offset(), 9800);
}
