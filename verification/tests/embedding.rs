use semantic_explorer_api::api::embedders::EmbedderKind;
use semantic_explorer_api::embedding::embedding_request;

#[test]
fn openai_requests() {
    let r = embedding_request("openai", "https://api.openai.com/v1/", Some("k"), None, "http://inf").ok().unwrap();
    assert!(r.kind == EmbedderKind::OpenAi);
    assert_eq!(r.url, "https://api.openai.com/v1/embeddings");
    assert_eq!(r.model, "text-embedding-3-small");
    assert_eq!(r.bearer, Some("k".to_string()));
    assert_eq!(
        embedding_request("openai", "  ", Some("k"), None, "x").err().unwrap(),
        "Invalid embedder configuration: base_url cannot be empty for OpenAI provider"
    );
    assert_eq!(
        embedding_request("openai", "https://a", None, None, "x").err().unwrap(),
        "API key required for provider: openai"
    );
}

#[test]
fn cohere_requests() {
    let r = embedding_request("cohere", "https://api.cohere.ai/v1/embed", Some("k"), Some("embed-v4.0"), "x").ok().unwrap();
    assert_eq!(r.url, "https://api.cohere.ai/v1/embed");
    assert_eq!(r.model, "embed-v4.0");
    assert_eq!(
        embedding_request("cohere", "", None, None, "x").err().unwrap(),
        "Invalid embedder configuration: base_url cannot be empty for Cohere provider"
    );
}

#[test]
fn internal_and_unknown_requests() {
    let r = embedding_request("internal", "", None, None, "http://localhost:8090/").ok().unwrap();
    assert_eq!(r.url, "http://localhost:8090/api/embed");
    assert_eq!(r.model, "BAAI/bge-small-en-v1.5");
    assert_eq!(r.bearer, None);
    assert_eq!(
        embedding_request("ollama", "b", Some("k"), None, "i").err().unwrap(),
        "Unsupported embedding provider: ollama"
    );
}
