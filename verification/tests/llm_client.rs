use semantic_explorer_api::llm_client::inference_error_message;
use semantic_explorer_api::llm_client::{
    chat_stream_url, chat_url, endpoint_url, inference_stream_step, InferenceStreamStep,
};

#[test]
fn endpoint_urls_drop_trailing_slashes() {
    assert_eq!(chat_url("http://svc:8080/"), "http://svc:8080/api/chat");
    assert_eq!(chat_url("http://svc:8080"), "http://svc:8080/api/chat");
    assert_eq!(chat_stream_url("http://svc///"), "http://svc/api/chat/stream");
    assert_eq!(endpoint_url("", "/x"), "/x");
    assert_eq!(endpoint_url("///", "/x"), "/x");
}

#[test]
fn stream_steps() {
    match inference_stream_step(Some("tok"), Some("bad")) {
        InferenceStreamStep::Data(d) => assert_eq!(d, "tok"),
        _ => panic!("expected data"),
    }
    match inference_stream_step(None, Some("bad")) {
        InferenceStreamStep::Failed(m) => assert_eq!(m, "Stream error: bad"),
        _ => panic!("expected failure"),
    }
    assert!(matches!(inference_stream_step(None, None), InferenceStreamStep::Skip));
}

#[test]
fn inference_errors() {
    assert_eq!(
        inference_error_message("503 Service Unavailable", Some("loading")),
        "LLM inference API returned 503 Service Unavailable: loading"
    );
    assert_eq!(
        inference_error_message("500 Internal Server Error", None),
        "LLM inference API returned 500 Internal Server Error: Unknown error"
    );
}
