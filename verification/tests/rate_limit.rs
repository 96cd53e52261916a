use semantic_explorer_api::rate_limit::{
    rate_limit_outcome, RateLimitOutcome, RateLimitResult,
    determine_endpoint_type, rate_limit_audit_details, rate_limit_headers, rate_limit_identity,
    rate_limit_key, rate_limit_result, rate_limit_window, rejection_headers, retry_after_seconds,
    should_rate_limit, window_key, RateLimitConfig, RateLimiter,
};

fn config() -> RateLimitConfig {
    RateLimitConfig {
        enabled: true,
        default_requests_per_minute: 100,
        search_requests_per_minute: 30,
        chat_requests_per_minute: 20,
        transform_requests_per_minute: 10,
        test_requests_per_minute: 5,
    }
}

#[test]
fn endpoint_types() {
    assert_eq!(determine_endpoint_type("/api/search"), "search");
    assert_eq!(determine_endpoint_type("/api/embedding/x"), "search");
    assert_eq!(determine_endpoint_type("/api/chat/sessions"), "chat");
    assert_eq!(determine_endpoint_type("/api/collection-transforms/1"), "default");
    assert_eq!(determine_endpoint_type("/api/transforms/3/trigger"), "transform");
    assert_eq!(determine_endpoint_type("/api/embedders/1/test"), "test");
    assert_eq!(determine_endpoint_type("/api/chat/search"), "search");
    assert_eq!(determine_endpoint_type("/api/datasets"), "default");
}

#[test]
fn limits_per_endpoint_type() {
    let limiter = RateLimiter::new(config());
    assert_eq!(limiter.get_limit_for_endpoint("search"), 30);
    assert_eq!(limiter.get_limit_for_endpoint("chat"), 20);
    assert_eq!(limiter.get_limit_for_endpoint("transform"), 10);
    assert_eq!(limiter.get_limit_for_endpoint("test"), 5);
    assert_eq!(limiter.get_limit_for_endpoint("default"), 100);
    assert_eq!(limiter.get_limit_for_endpoint("other"), 100);
}

#[test]
fn window_keys() {
    let limiter = RateLimiter::new(config());
    let w = limiter.window_check("alice", "chat", 125);
    assert_eq!(w.window_key, "rate_limit:chat:alice:2");
    assert_eq!(w.limit, 20);
    assert_eq!(w.window, 2);
    assert_eq!(w.now, 125);
    assert_eq!(rate_limit_window(59), 0);
    assert_eq!(rate_limit_window(60), 1);
    assert_eq!(rate_limit_key("search", "bob"), "rate_limit:search:bob");
    assert_eq!(window_key("k", 7), "k:7");
}

#[test]
fn only_api_paths_are_limited() {
    assert!(should_rate_limit("/api/datasets", true));
    assert!(!should_rate_limit("/api/datasets", false));
    assert!(!should_rate_limit("/health", true));
    assert!(!should_rate_limit("/apix", true));
    assert_eq!(rate_limit_identity(None), "anonymous");
    assert_eq!(rate_limit_identity(Some("u".to_string())), "u");
}

#[test]
fn script_reply_and_headers() {
    let allowed = rate_limit_result(20, &[1, 19, 2]);
    assert!(allowed.allowed);
    assert_eq!((allowed.limit, allowed.remaining, allowed.reset_time), (20, 19, 120));
    let denied = rate_limit_result(20, &[0, 0, 3]);
    assert!(!denied.allowed);
    let h = rate_limit_headers(&allowed);
    let pairs: Vec<(String, String)> = h.into_iter().map(|x| (x.name, x.value)).collect();
    assert_eq!(
        pairs,
        vec![
            ("x-ratelimit-limit".to_string(), "20".to_string()),
            ("x-ratelimit-remaining".to_string(), "19".to_string()),
            ("x-ratelimit-reset".to_string(), "120".to_string()),
        ]
    );
    assert_eq!(retry_after_seconds(180, 150), 30);
    let r = rejection_headers(&denied, 30);
    let pairs: Vec<(String, String)> = r.into_iter().map(|x| (x.name, x.value)).collect();
    assert_eq!(
        pairs,
        vec![
            ("X-RateLimit-Limit".to_string(), "20".to_string()),
            ("X-RateLimit-Remaining".to_string(), "0".to_string()),
            ("X-RateLimit-Reset".to_string(), "180".to_string()),
            ("Retry-After".to_string(), "30".to_string()),
        ]
    );
    assert_eq!(rate_limit_audit_details("/api/chat", 20), "endpoint: /api/chat, limit: 20");
}

#[test]
fn same_minute_shares_a_window() {
    let limiter = RateLimiter::new(config());
    assert_eq!(
        limiter.window_check("u", "search", 120).window_key,
        limiter.window_check("u", "search", 179).window_key
    );
    assert_ne!(
        limiter.window_check("u", "search", 179).window_key,
        limiter.window_check("u", "search", 180).window_key
    );
}

#[test]
fn outcomes_of_checks() {
    assert!(matches!(rate_limit_outcome(None, 10), RateLimitOutcome::FailOpen));
    let ok = RateLimitResult { allowed: true, limit: 5, remaining: 4, reset_time: 120 };
    match rate_limit_outcome(Some(&ok), 100) {
        RateLimitOutcome::Allowed(h) => assert_eq!(h.len(), 3),
        _ => panic!("expected allowed"),
    }
    let no = RateLimitResult { allowed: false, limit: 5, remaining: 0, reset_time: 120 };
    match rate_limit_outcome(Some(&no), 100) {
        RateLimitOutcome::Rejected { headers, retry_after } => {
            assert_eq!(retry_after, 20);
            assert_eq!(headers[3].value, "20");
        }
        _ => panic!("expected rejection"),
    }
}
