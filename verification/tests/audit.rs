use semantic_explorer_api::audit::{audit_message_disposition, MessageDisposition, AUDIT_CONSUMER_NAME};
use semantic_explorer_api::audit::{
    auth_failed, chat_message_sent, configuration_changed, file_downloaded,
    file_validation_failed, marketplace_grab, rate_limit_exceeded, resource_created,
    resource_deleted, resource_read, resource_updated, search_request, store_directly,
    unauthorized_access, validation_failed, AuditEvent, AuditEventType, AuditLogLevel,
    AuditOutcome, ResourceType, AUDIT_EVENTS_STREAM, AUDIT_EVENTS_SUBJECT,
};

#[test]
fn builders_keep_fields() {
    let e = AuditEvent::new_at(AuditEventType::ResourceRead, AuditOutcome::Success, "h", "alice", "ts".to_string())
        .with_resource(ResourceType::Dataset, "7")
        .with_details("d");
    assert_eq!(e.timestamp, "ts");
    assert!(matches!(e.event_type, AuditEventType::ResourceRead));
    assert_eq!((e.user.as_str(), e.user_display.as_str()), ("h", "alice"));
    assert!(matches!(e.resource_type, Some(ResourceType::Dataset)));
    assert_eq!(e.resource_id, Some("7".to_string()));
    assert_eq!(e.details, Some("d".to_string()));
}

#[test]
fn log_levels() {
    let lvl = |o: AuditOutcome| AuditEvent::new_at(AuditEventType::SystemError, o, "u", "u", String::new()).log();
    assert!(matches!(lvl(AuditOutcome::Success), AuditLogLevel::Info));
    assert!(matches!(lvl(AuditOutcome::Allowed), AuditLogLevel::Info));
    assert!(matches!(lvl(AuditOutcome::Failure), AuditLogLevel::Warn));
    assert!(matches!(lvl(AuditOutcome::Denied), AuditLogLevel::Warn));
}

#[test]
fn resource_events() {
    for (e, ty) in [
        (resource_created("u", "U", ResourceType::Collection, "1"), "create"),
        (resource_read("u", "U", ResourceType::Collection, "1"), "read"),
        (resource_updated("u", "U", ResourceType::Collection, "1"), "update"),
        (resource_deleted("u", "U", ResourceType::Collection, "1"), "delete"),
        (marketplace_grab("u", "U", ResourceType::Collection, "1"), "grab"),
    ] {
        assert!(matches!(e.outcome, AuditOutcome::Success));
        assert_eq!(e.resource_id, Some("1".to_string()));
        assert_eq!(e.details, None);
        let ok = match (&e.event_type, ty) {
            (AuditEventType::ResourceCreate, "create") => true,
            (AuditEventType::ResourceRead, "read") => true,
            (AuditEventType::ResourceUpdate, "update") => true,
            (AuditEventType::ResourceDelete, "delete") => true,
            (AuditEventType::MarketplaceGrab, "grab") => true,
            _ => false,
        };
        assert!(ok);
    }
    let c = chat_message_sent("u", "U", "sess");
    assert!(matches!(c.event_type, AuditEventType::ChatMessage));
    assert!(matches!(c.resource_type, Some(ResourceType::Session)));
    assert_eq!(c.resource_id, Some("sess".to_string()));
}

#[test]
fn detail_texts() {
    assert_eq!(auth_failed("u", "U", "bad token").details, Some("bad token".to_string()));
    let ua = unauthorized_access("u", "U", ResourceType::Embedder, "3", "not owner");
    assert!(matches!(ua.outcome, AuditOutcome::Denied));
    assert_eq!(ua.details, Some("not owner".to_string()));
    assert_eq!(validation_failed("u", "U", "title", "empty").details, Some("title: empty".to_string()));
    assert_eq!(
        search_request("u", "U", &["1".to_string(), "2".to_string()]).details,
        Some("collections: 1, 2".to_string())
    );
    assert_eq!(search_request("u", "U", &[]).details, Some("collections: ".to_string()));
    let f = file_downloaded("u", "U", 12, "a.pdf");
    assert_eq!((f.resource_id, f.details), (Some("12".to_string()), Some("a.pdf".to_string())));
    assert_eq!(
        configuration_changed("u", "U", ResourceType::LlmProvider, "9", "api_key").details,
        Some("field: api_key".to_string())
    );
    let v = file_validation_failed("u", "U", -1, "x.exe", "type");
    assert_eq!(v.resource_id, Some("-1".to_string()));
    assert_eq!(v.details, Some("file: x.exe; reason: type".to_string()));
    let r = rate_limit_exceeded("anonymous", "endpoint: /api/x, limit: 5");
    assert_eq!((r.user.as_str(), r.user_display.as_str()), ("anonymous", "anonymous"));
    assert!(matches!(r.outcome, AuditOutcome::Denied));
}

#[test]
fn storage_fallback_and_names() {
    assert!(store_directly(false, true));
    assert!(!store_directly(true, true));
    assert!(!store_directly(false, false));
    assert_eq!(AUDIT_EVENTS_SUBJECT, "audit.events");
    assert_eq!(AUDIT_EVENTS_STREAM, "AUDIT_EVENTS");
}

#[test]
fn consumer_dispositions() {
    assert!(matches!(audit_message_disposition(false, true), MessageDisposition::Term));
    assert!(matches!(audit_message_disposition(true, true), MessageDisposition::Ack));
    assert!(matches!(audit_message_disposition(true, false), MessageDisposition::Nak));
    assert_eq!(AUDIT_CONSUMER_NAME, "audit-db-writer");
}
