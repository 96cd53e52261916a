use semantic_explorer_api::rag::{build_context, replace_chunk_references, RetrievedDocument};

fn doc(id: &str, text: &str, score: &str, title: Option<&str>) -> RetrievedDocument {
    RetrievedDocument {
        document_id: Some(id.to_string()),
        text: text.to_string(),
        similarity_score_text: score.to_string(),
        item_title: title.map(|t| t.to_string()),
    }
}

#[test]
fn test_build_context_empty() {
    let docs = vec![];
    let context = build_context(&docs);
    assert_eq!(context, "No relevant documents found.");
}

#[test]
fn test_build_context_single() {
    let docs = vec![doc("doc1", "This is a test document", "0.95", Some("test_item"))];

    let context = build_context(&docs);
    assert!(context.contains("Chunk 1"));
    assert!(context.contains("Score: 0.95"));
    assert!(context.contains("test_item"));
    assert!(context.contains("This is a test document"));
}

#[test]
fn test_replace_chunk_references() {
    let docs = vec![
        doc("doc1", "Content 1", "0.95", Some("Document A")),
        doc("doc2", "Content 2", "0.85", Some("Document B")),
    ];

    let content = "According to Chunk 1, this is true. Also, Chunk 2 confirms it.";
    let result = replace_chunk_references(content, &docs);

    assert_eq!(
        result,
        "According to Document A, this is true. Also, Document B confirms it."
    );
}

#[test]
fn test_replace_chunk_references_no_title() {
    let docs = vec![doc("doc1", "Content", "0.95", None)];

    let content = "According to Chunk 1, this is true.";
    let result = replace_chunk_references(content, &docs);

    assert_eq!(result, "According to Unknown Source, this is true.");
}

#[test]
fn build_context_two_documents_exact() {
    let docs = vec![
        doc("a", "first", "0.90", Some("One")),
        doc("b", "second", "0.10", None),
    ];
    let context = build_context(&docs);
    assert_eq!(
        context,
        "Below are the relevant document chunks retrieved for this query. Reference them by their chunk number (e.g., \"According to Chunk 1\" or \"As stated in Chunk 2\") when answering.\n\n\
<|doc_start|>\n[Chunk 1] - One\nSimilarity Score: 0.90\nContent:\nfirst\n<|doc_end|>\n\n\
<|doc_start|>\n[Chunk 2] - unknown\nSimilarity Score: 0.10\nContent:\nsecond\n<|doc_end|>\n\n"
    );
}

#[test]
fn references_out_of_range_are_kept() {
    let docs = vec![doc("doc1", "Content", "0.95", Some("A"))];
    assert_eq!(
        replace_chunk_references("See Chunk 0 and Chunk 2 and Chunk 1.", &docs),
        "See Chunk 0 and Chunk 2 and A."
    );
}

#[test]
fn text_without_references_is_unchanged() {
    let docs = vec![doc("doc1", "Content", "0.95", Some("A"))];
    let text = "Nothing to see here; chunk 1 is lower case.";
    assert_eq!(replace_chunk_references(text, &docs), text);
}
