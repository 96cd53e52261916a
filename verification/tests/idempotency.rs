use semantic_explorer_api::idempotency::{
    cached_response, on_inner_response, on_store_lookup, replay_headers, replay_response, replay_status,
    LookupAction, should_cache_response, IdempotencyConfig,
    IdempotencyMiddleware, IdempotencyPlan, KeyHeader, IDEMPOTENCY_KEY_HEADER, IDEMPOTENCY_TTL_SECS,
};
use semantic_explorer_api::rate_limit::Header;

#[test]
fn config_builders() {
    let c = IdempotencyConfig::new();
    assert!(c.enabled);
    assert_eq!(c.key_prefix, "idempotency");
    assert_eq!(c.ttl_secs, IDEMPOTENCY_TTL_SECS);
    assert_eq!(IDEMPOTENCY_TTL_SECS, 86400);
    assert_eq!(IDEMPOTENCY_KEY_HEADER, "Idempotency-Key");
    let c2 = IdempotencyConfig::new().with_prefix("p".to_string()).with_ttl(5);
    assert_eq!((c2.key_prefix.as_str(), c2.ttl_secs, c2.enabled), ("p", 5, true));
}

#[test]
fn idempotent_endpoints() {
    assert!(IdempotencyMiddleware::should_check_idempotency("POST", "/api/collection-transforms/1/trigger")
        == false);
    assert!(IdempotencyMiddleware::should_check_idempotency("POST", "/api/transforms/1/trigger"));
    assert!(IdempotencyMiddleware::should_check_idempotency("post", "/api/dataset/transforms/9/trigger"));
    assert!(!IdempotencyMiddleware::should_check_idempotency("GET", "/api/transforms/1/trigger"));
    assert!(!IdempotencyMiddleware::should_check_idempotency("POST", "/api/transforms/1"));
}

#[test]
fn redis_key_layout() {
    let c = IdempotencyConfig::new();
    assert_eq!(
        IdempotencyMiddleware::build_redis_key(&c, "alice", "k1", "/api/transforms/1/trigger"),
        "idempotency:alice:k1:/api/transforms/1/trigger"
    );
}

#[test]
fn plans() {
    let m = IdempotencyMiddleware::new(IdempotencyConfig::new());
    let path = "/api/transforms/1/trigger";
    match m.plan("POST", path, KeyHeader::Valid("k".to_string()), Some("u".to_string())) {
        IdempotencyPlan::Check(k) => assert_eq!(k, "idempotency:u:k:/api/transforms/1/trigger"),
        IdempotencyPlan::Bypass => panic!("expected check"),
    }
    assert!(matches!(m.plan("POST", path, KeyHeader::Missing, Some("u".to_string())), IdempotencyPlan::Bypass));
    assert!(matches!(m.plan("POST", path, KeyHeader::Invalid, Some("u".to_string())), IdempotencyPlan::Bypass));
    assert!(matches!(m.plan("POST", path, KeyHeader::Valid("k".to_string()), None), IdempotencyPlan::Bypass));
    assert!(matches!(m.plan("GET", path, KeyHeader::Valid("k".to_string()), Some("u".to_string())), IdempotencyPlan::Bypass));
    let mut off = IdempotencyConfig::new();
    off.enabled = false;
    let m2 = IdempotencyMiddleware::new(off);
    assert!(matches!(m2.plan("POST", path, KeyHeader::Valid("k".to_string()), Some("u".to_string())), IdempotencyPlan::Bypass));
}

fn h(n: &str, v: &str) -> Header {
    Header { name: n.to_string(), value: v.to_string() }
}

#[test]
fn caching_and_replay() {
    assert!(should_cache_response(200));
    assert!(should_cache_response(299));
    assert!(!should_cache_response(300));
    assert!(!should_cache_response(199));
    let c = cached_response(201, vec![h("a", "1")], 42);
    assert_eq!((c.status, c.body.as_str(), c.timestamp, c.headers.len()), (201, "", 42, 1));
    assert_eq!(replay_status(202), 202);
    assert_eq!(replay_status(42), 200);
    assert_eq!(replay_status(1000), 200);
    let out = replay_headers(&vec![h("a", "ok\tfine"), h("b", "bad\nvalue"), h("c", "x")]);
    let pairs: Vec<(String, String)> = out.into_iter().map(|x| (x.name, x.value)).collect();
    assert_eq!(
        pairs,
        vec![
            ("a".to_string(), "ok\tfine".to_string()),
            ("c".to_string(), "x".to_string()),
            ("X-Idempotency-Replay".to_string(), "true".to_string()),
        ]
    );
}

#[test]
fn second_request_replays_stored_response() {
    let stored = cached_response(
        201,
        vec![h("Content-Type", "application/json"), h("X-Bad", "a\u{1}b"), h("Location", "/x/1")],
        1_700_000_000,
    );
    let r = replay_response(&stored);
    assert_eq!(r.status, 201);
    assert_eq!(r.body, "");
    let pairs: Vec<(String, String)> = r.headers.iter().map(|x| (x.name.clone(), x.value.clone())).collect();
    assert_eq!(
        pairs,
        vec![
            ("Content-Type".to_string(), "application/json".to_string()),
            ("Location".to_string(), "/x/1".to_string()),
            ("X-Idempotency-Replay".to_string(), "true".to_string()),
        ]
    );
    let odd = cached_response(1000, vec![], 0);
    assert_eq!(replay_response(&odd).status, 200);
}

#[test]
fn repeated_request_is_not_processed() {
    assert!(matches!(on_store_lookup(None), LookupAction::CallInner));
    let write = on_inner_response("idempotency:u:k:/api/transforms/1/trigger", 86400, 202, vec![h("Location", "/x")], 5)
        .expect("a successful response is stored");
    assert_eq!(write.key, "idempotency:u:k:/api/transforms/1/trigger");
    assert_eq!(write.ttl_secs, 86400);
    assert_eq!(write.response.status, 202);
    assert_eq!(write.response.body, "");
    assert_eq!(write.response.timestamp, 5);
    match on_store_lookup(Some(write.response)) {
        LookupAction::Replay(r) => {
            assert_eq!(r.status, 202);
            assert_eq!(r.body, "");
            assert_eq!(r.headers.len(), 2);
            assert_eq!(r.headers[1].name, "X-Idempotency-Replay");
        }
        LookupAction::CallInner => panic!("expected a replay"),
    }
    assert!(on_inner_response("k", 10, 500, vec![], 0).is_none());
    assert!(on_inner_response("k", 10, 199, vec![], 0).is_none());
    assert!(on_inner_response("k", 10, 299, vec![], 0).is_some());
}
