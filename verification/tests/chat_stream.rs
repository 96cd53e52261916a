use semantic_explorer_api::chat_stream::{
    answer_content, chat_stream_step, connected_event, error_event, event_frame, heartbeat_event,
    last_user_message_before, rag_max_documents, regenerate_question, regenerate_role_check,
    retrieval_complete_event, save_failed_event, timeout_event, AnswerStream, ChatStreamAction,
    ChatStreamEvent, ChatStreamState, SessionMessage,
};
use semantic_explorer_api::rag::RetrievedDocument;

fn docs() -> Vec<RetrievedDocument> {
    vec![RetrievedDocument {
        document_id: None,
        text: "t".to_string(),
        similarity_score_text: "0.50".to_string(),
        item_title: Some("Guide".to_string()),
    }]
}

#[test]
fn retrieval_settings() {
    assert_eq!(rag_max_documents(None, 20), 20);
    assert_eq!(rag_max_documents(Some(0), 20), 1);
    assert_eq!(rag_max_documents(Some(-3), 20), 1);
    assert_eq!(rag_max_documents(Some(7), 20), 7);
}

#[test]
fn stored_answers() {
    assert_eq!(answer_content(Ok("See Chunk 1.".to_string()), &docs()), "See Guide.");
    assert_eq!(
        answer_content(Err("db down".to_string()), &docs()),
        "Error generating response: db down"
    );
}

#[test]
fn event_texts() {
    assert_eq!(connected_event(), "event: connected\ndata: {\"status\":\"connected\"}\n\n");
    assert_eq!(heartbeat_event(), ": heartbeat\n\n");
    assert_eq!(event_frame("content", "{\"a\":1}"), "event: content\ndata: {\"a\":1}\n\n");
    assert_eq!(
        retrieval_complete_event(5, "[]"),
        "event: retrieval_complete\ndata: {\"message_id\":5,\"documents\":[]}\n\n"
    );
    assert_eq!(
        error_event(5, "bad \"thing\""),
        "event: error\ndata: {\"message_id\":5,\"error\":\"bad \\\"thing\\\"\"}\n\n"
    );
    assert_eq!(
        save_failed_event(-1),
        "event: error\ndata: {\"message_id\":-1,\"error\":\"failed to save message\"}\n\n"
    );
    assert_eq!(timeout_event(9), "event: timeout\ndata: {\"message_id\":9}\n\n");
}

#[test]
fn streamed_answer_counts_bytes() {
    let mut s = AnswerStream::new();
    let fifty = "x".repeat(50);
    assert!(!s.on_chunk(&fifty));
    assert!(s.on_chunk(&fifty));
    assert!(!s.on_chunk("é"));
    assert_eq!(s.byte_count(), 102);
    assert!(!s.on_chunk("Chunk 1"));
    assert_eq!(s.finish(&docs()), format!("{}{}éGuide", fifty, fifty));
}

#[test]
fn progress_when_a_hundred_is_crossed() {
    let mut s = AnswerStream::new();
    let piece = "y".repeat(51);
    assert!(!s.on_chunk(&piece));
    assert!(s.on_chunk(&piece));
    assert_eq!(s.byte_count(), 102);
    assert!(!s.on_chunk(&"z".repeat(97)));
    assert!(s.on_chunk("z"));
    assert_eq!(s.byte_count(), 200);
}

fn content_of(a: &ChatStreamAction) -> Option<String> {
    match a {
        ChatStreamAction::SendContent(c) => Some(c.clone()),
        _ => None,
    }
}

#[test]
fn stream_step_chunks_and_progress() {
    let mut st = ChatStreamState::new(7, docs());
    let piece = "a".repeat(60);
    let a1 = chat_stream_step(&mut st, ChatStreamEvent::Chunk(piece.clone()));
    assert_eq!(a1.len(), 1);
    assert_eq!(content_of(&a1[0]), Some(piece.clone()));
    let a2 = chat_stream_step(&mut st, ChatStreamEvent::Chunk(piece.clone()));
    assert_eq!(a2.len(), 2);
    assert!(matches!(a2[1], ChatStreamAction::SendProgress(120)));
    let h = chat_stream_step(&mut st, ChatStreamEvent::Heartbeat);
    assert_eq!(h.len(), 1);
    assert!(matches!(&h[0], ChatStreamAction::Send(t) if t.as_str() == ": heartbeat\n\n"));
    let ignored = chat_stream_step(&mut st, ChatStreamEvent::Saved(true));
    assert!(ignored.is_empty());
}

#[test]
fn stream_step_save_and_complete() {
    let mut st = ChatStreamState::new(7, docs());
    chat_stream_step(&mut st, ChatStreamEvent::Chunk("See Chunk 1".to_string()));
    chat_stream_step(&mut st, ChatStreamEvent::Chunk(".".to_string()));
    let end = chat_stream_step(&mut st, ChatStreamEvent::Ended);
    assert_eq!(end.len(), 1);
    assert!(matches!(&end[0], ChatStreamAction::Save(c) if c.as_str() == "See Guide."));
    let beat = chat_stream_step(&mut st, ChatStreamEvent::Heartbeat);
    assert!(beat.is_empty());
    let done = chat_stream_step(&mut st, ChatStreamEvent::Saved(true));
    assert_eq!(done.len(), 1);
    assert!(matches!(&done[0], ChatStreamAction::SendComplete(c) if c.as_str() == "See Guide."));
    assert!(chat_stream_step(&mut st, ChatStreamEvent::Chunk("more".to_string())).is_empty());
    assert!(chat_stream_step(&mut st, ChatStreamEvent::Timeout).is_empty());
}

#[test]
fn stream_step_save_failure() {
    let mut st = ChatStreamState::new(3, docs());
    chat_stream_step(&mut st, ChatStreamEvent::Ended);
    let failed = chat_stream_step(&mut st, ChatStreamEvent::Saved(false));
    assert_eq!(failed.len(), 1);
    assert!(matches!(&failed[0], ChatStreamAction::Send(t) if *t == save_failed_event(3)));
}

#[test]
fn stream_step_failure_and_timeout() {
    let mut st = ChatStreamState::new(4, docs());
    let f = chat_stream_step(&mut st, ChatStreamEvent::Failed("boom".to_string()));
    assert_eq!(f.len(), 2);
    assert!(matches!(f[0], ChatStreamAction::MarkFailed));
    assert!(matches!(&f[1], ChatStreamAction::Send(t) if *t == error_event(4, "boom")));
    assert!(chat_stream_step(&mut st, ChatStreamEvent::Ended).is_empty());

    let mut st2 = ChatStreamState::new(5, docs());
    let t = chat_stream_step(&mut st2, ChatStreamEvent::Timeout);
    assert_eq!(t.len(), 2);
    assert!(matches!(t[0], ChatStreamAction::MarkFailed));
    assert!(matches!(&t[1], ChatStreamAction::Send(x) if *x == timeout_event(5)));
}

fn msg(id: i32, role: &str) -> SessionMessage {
    SessionMessage { message_id: id, role: role.to_string(), content: format!("m{}", id) }
}

#[test]
fn regenerate_picks_last_user_message() {
    let msgs = vec![msg(1, "user"), msg(2, "assistant"), msg(3, "user"), msg(4, "assistant"), msg(5, "user")];
    assert_eq!(last_user_message_before(&msgs, 4), Some(2));
    assert_eq!(last_user_message_before(&msgs, 2), Some(0));
    assert_eq!(last_user_message_before(&msgs, 1), None);
    assert_eq!(last_user_message_before(&msgs, 99), Some(4));
    assert_eq!(regenerate_question("assistant", &msgs, 4, false), Ok(2));
}

#[test]
fn regenerate_errors() {
    let msgs = vec![msg(1, "assistant"), msg(2, "user"), msg(3, "assistant")];
    assert_eq!(
        regenerate_role_check("user"),
        Err((400, "can only regenerate assistant messages".to_string()))
    );
    assert_eq!(regenerate_role_check("assistant"), Ok(()));
    assert_eq!(
        regenerate_question("user", &msgs, 2, false),
        Err((400, "can only regenerate assistant messages".to_string()))
    );
    assert_eq!(
        regenerate_question("assistant", &msgs, 1, false),
        Err((400, "no user message found before assistant message".to_string()))
    );
    assert_eq!(
        regenerate_question("assistant", &msgs, 3, true),
        Err((501, "streaming regeneration not yet implemented - use non-streaming for now".to_string()))
    );
}
