use semantic_explorer_api::health::{
    nats_health, postgres_health, probe_health, qdrant_health, readiness_http_status, s3_health,
    ComponentsHealth, HealthResponse, HealthStatus,
};
use semantic_explorer_api::status::{
    consumer_names, consumer_statuses, dlq_status, retention_name, stream_name, stream_status,
    stream_statuses, ConsumerInfo, NatsConnectionState, RetentionPolicy, StreamInfo,
};

fn info(messages: u64) -> StreamInfo {
    StreamInfo {
        messages,
        bytes: messages * 10,
        consumer_count: 1,
        first_seq: 1,
        last_seq: messages,
        first_ts: "t0".to_string(),
        last_ts: "t1".to_string(),
        subjects: vec!["a.>".to_string()],
        retention: RetentionPolicy::WorkQueue,
    }
}

fn consumer(pending: u64) -> ConsumerInfo {
    ConsumerInfo {
        num_pending: pending,
        num_ack_pending: 2,
        num_waiting: 3,
        num_redelivered: 4,
        delivered_consumer_seq: 5,
        ack_floor_consumer_seq: 6,
        delivered_stream_seq: 7,
        ack_floor_stream_seq: 8,
    }
}

#[test]
fn monitored_names() {
    let names: Vec<&str> = (0..7).map(stream_name).collect();
    assert_eq!(
        names,
        vec![
            "COLLECTION_TRANSFORMS",
            "DATASET_TRANSFORMS",
            "VISUALIZATION_TRANSFORMS",
            "DLQ_TRANSFORMS",
            "SCANNER_TRIGGERS",
            "TRANSFORM_STATUS",
            "AUDIT_EVENTS"
        ]
    );
    assert_eq!(consumer_names(0), ("collection-transform-workers", "COLLECTION_TRANSFORMS"));
    assert_eq!(consumer_names(4), ("audit-db-writer", "AUDIT_EVENTS"));
}

#[test]
fn stream_reports() {
    assert_eq!(retention_name(&RetentionPolicy::Limits), "Limits");
    assert_eq!(retention_name(&RetentionPolicy::Interest), "Interest");
    let s = stream_status("S", Some(info(3)));
    assert_eq!((s.messages, s.bytes, s.retention.as_str()), (3, 30, "WorkQueue"));
    assert_eq!(s.first_ts, Some("t0".to_string()));
    let missing = stream_status("S", None);
    assert_eq!((missing.messages, missing.retention.as_str(), missing.subjects.len()), (0, "Unknown", 0));
    let all = stream_statuses(vec![Some(info(1)), None, None, None, None, None, Some(info(9))]);
    assert_eq!(all.len(), 7);
    assert_eq!(all[0].name, "COLLECTION_TRANSFORMS");
    assert_eq!(all[1].retention, "Unknown");
    assert_eq!(all[6].name, "AUDIT_EVENTS");
    assert_eq!(all[6].messages, 9);
}

#[test]
fn consumer_reports_skip_missing() {
    let r = consumer_statuses(&vec![None, Some(consumer(11)), None, Some(consumer(13)), None]);
    assert_eq!(r.len(), 2);
    assert_eq!((r[0].name.as_str(), r[0].stream.as_str(), r[0].num_pending), ("dataset-transform-workers", "DATASET_TRANSFORMS", 11));
    assert_eq!((r[1].name.as_str(), r[1].num_pending), ("scanner-workers", 13));
    assert_eq!((r[1].num_delivered, r[1].num_ack_floor, r[1].last_delivered_seq, r[1].ack_floor_seq), (5, 6, 7, 8));
}

#[test]
fn dead_letter_report() {
    let d = dlq_status(Some((4, 400)));
    assert_eq!((d.total_messages, d.total_bytes), (4, 400));
    let subjects: Vec<&str> = d.by_subject.iter().map(|s| s.subject.as_str()).collect();
    assert_eq!(subjects, vec!["dlq.collection-transforms", "dlq.dataset-transforms", "dlq.visualization-transforms"]);
    assert!(d.by_subject.iter().all(|s| s.count == 0));
    let e = dlq_status(None);
    assert_eq!((e.total_messages, e.by_subject.len()), (0, 0));
}

fn is(s: &HealthStatus, want: &str) -> bool {
    match s {
        HealthStatus::Healthy => want == "healthy",
        HealthStatus::Unhealthy => want == "unhealthy",
        HealthStatus::Degraded => want == "degraded",
    }
}

#[test]
fn overall_health() {
    let all_ok = ComponentsHealth {
        postgres: postgres_health(true),
        qdrant: qdrant_health(true),
        s3: s3_health(true),
        nats: nats_health(&NatsConnectionState::Connected),
    };
    let st = HealthResponse::overall_status(&all_ok);
    assert!(is(&st, "healthy"));
    assert_eq!(readiness_http_status(&st), 200);

    let pending = ComponentsHealth {
        postgres: postgres_health(true),
        qdrant: qdrant_health(true),
        s3: s3_health(true),
        nats: nats_health(&NatsConnectionState::Pending),
    };
    let st = HealthResponse::overall_status(&pending);
    assert!(is(&st, "degraded"));
    assert_eq!(readiness_http_status(&st), 200);

    let down = ComponentsHealth {
        postgres: postgres_health(false),
        qdrant: qdrant_health(true),
        s3: s3_health(true),
        nats: nats_health(&NatsConnectionState::Pending),
    };
    let st = HealthResponse::overall_status(&down);
    assert!(is(&st, "unhealthy"));
    assert_eq!(readiness_http_status(&st), 503);
}

#[test]
fn component_errors() {
    assert_eq!(postgres_health(false).error, Some("Database connection failed".to_string()));
    assert_eq!(qdrant_health(false).error, Some("Vector database connection failed".to_string()));
    assert_eq!(s3_health(false).error, Some("Object storage connection failed".to_string()));
    assert_eq!(nats_health(&NatsConnectionState::Disconnected).error, Some("NATS disconnected".to_string()));
    assert_eq!(nats_health(&NatsConnectionState::Pending).error, Some("NATS connection pending".to_string()));
    assert_eq!(probe_health(true, "x").error, None);
}
