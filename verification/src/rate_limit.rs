//! Rate limiting decisions: which requests are limited, under which
//! endpoint type and limit, the keys of the per-minute windows, and the
//! result and headers derived from the window store's reply.
use vstd::prelude::*;
use crate::text::{
    append_chars, append_str, chars_eq_str, chars_to_string, contains_seq, contains_str, decimal,
    decimal_chars, lemma_decimal_injective, starts_with, starts_with_str, str_to_chars,
};

verus! {

/// Rate limit settings: whether limiting is on, and the requests allowed per
/// minute for each endpoint type.
pub struct RateLimitConfig {
    pub enabled: bool,
    pub default_requests_per_minute: u64,
    pub search_requests_per_minute: u64,
    pub chat_requests_per_minute: u64,
    pub transform_requests_per_minute: u64,
    pub test_requests_per_minute: u64,
}

/// The outcome of a rate limit check.
pub struct RateLimitResult {
    pub allowed: bool,
    pub limit: u64,
    pub remaining: u64,
    /// Unix time, in seconds, at which the current window ends.
    pub reset_time: u64,
}

/// The endpoint type of a request path, checked in this order: "search"
/// for search and embedding endpoints, then "chat", "transform", "test",
/// and "default" for everything else.
pub open spec fn endpoint_type_of(path: Seq<char>) -> Seq<char> {
    if contains_seq(path, "/search"@) || contains_seq(path, "/embedding"@) {
        "search"@
    } else if contains_seq(path, "/chat"@) {
        "chat"@
    } else if contains_seq(path, "/transforms"@) {
        "transform"@
    } else if contains_seq(path, "/test"@) {
        "test"@
    } else {
        "default"@
    }
}

/// Determines the endpoint type of a request path for rate limiting.
pub fn determine_endpoint_type(path: &str) -> (r: &'static str)
    ensures
        r@ == endpoint_type_of(path@),
        contains_seq(path@, "/search"@) || contains_seq(path@, "/embedding"@) ==> r@ == "search"@,
{
    let p = str_to_chars(path);
    if contains_str(p.as_slice(), "/search") || contains_str(p.as_slice(), "/embedding") {
        "search"
    } else if contains_str(p.as_slice(), "/chat") {
        "chat"
    } else if contains_str(p.as_slice(), "/transforms") {
        "transform"
    } else if contains_str(p.as_slice(), "/test") {
        "test"
    } else {
        "default"
    }
}

/// Search and embedding requests are limited as searches: a path in which
/// "/search" or "/embedding" occurs at position `i` is of type "search",
/// and gets the search limit.
pub proof fn lemma_search_and_embedding_paths(path: Seq<char>, i: int, config: RateLimitConfig)
    requires
        0 <= i,
        (i + 7 <= path.len() && path.subrange(i, i + 7) == "/search"@) || (i + 10 <= path.len()
            && path.subrange(i, i + 10) == "/embedding"@),
    ensures
        endpoint_type_of(path) == "search"@,
        limit_for(config, endpoint_type_of(path)) == config.search_requests_per_minute,
{
    reveal_strlit("/search");
    reveal_strlit("/embedding");
    if i + 7 <= path.len() && path.subrange(i, i + 7) == "/search"@ {
        assert(crate::text::matches_at(path, "/search"@, i));
    } else {
        assert(crate::text::matches_at(path, "/embedding"@, i));
    }
}

/// Text around a search or embedding path does not change its type: a
/// path classified as "search" stays so with anything before or after it.
pub proof fn lemma_search_type_survives_extension(before: Seq<char>, path: Seq<char>, after: Seq<char>)
    requires
        endpoint_type_of(path) == "search"@,
    ensures
        endpoint_type_of(before + path + after) == "search"@,
{
    reveal_strlit("search");
    reveal_strlit("chat");
    reveal_strlit("transform");
    reveal_strlit("test");
    reveal_strlit("default");
    let whole = before + path + after;
    if contains_seq(path, "/search"@) {
        let i = choose|i: int| crate::text::matches_at(path, "/search"@, i);
        let j = i + before.len();
        assert(whole.subrange(j, j + "/search"@.len()) =~= path.subrange(i, i + "/search"@.len()));
        assert(crate::text::matches_at(whole, "/search"@, j));
    } else {
        assert(contains_seq(path, "/embedding"@)) by {
            if !contains_seq(path, "/embedding"@) {
                assert("chat"@.len() != "search"@.len() && "transform"@.len() != "search"@.len());
                assert("test"@.len() != "search"@.len() && "default"@.len() != "search"@.len());
            }
        }
        let i = choose|i: int| crate::text::matches_at(path, "/embedding"@, i);
        let j = i + before.len();
        assert(whole.subrange(j, j + "/embedding"@.len()) =~= path.subrange(i, i + "/embedding"@.len()));
        assert(crate::text::matches_at(whole, "/embedding"@, j));
    }
}

/// Without a search or embedding marker, a path with "/chat" at `i` is a
/// chat request; without "/chat" either, one with "/transforms" at `i` is a
/// transform request; without those, one with "/test" at `i` is a test
/// request. Each gets its own limit.
pub proof fn lemma_chat_transform_test_paths(path: Seq<char>, i: int, config: RateLimitConfig)
    requires
        0 <= i,
        forall|k: int| !crate::text::matches_at(path, "/search"@, k) && !crate::text::matches_at(path, "/embedding"@, k),
    ensures
        i + 5 <= path.len() && path.subrange(i, i + 5) == "/chat"@ ==> endpoint_type_of(path) == "chat"@
            && limit_for(config, endpoint_type_of(path)) == config.chat_requests_per_minute,
        (forall|k: int| !crate::text::matches_at(path, "/chat"@, k)) && i + 11 <= path.len() && path.subrange(
            i,
            i + 11,
        ) == "/transforms"@ ==> endpoint_type_of(path) == "transform"@ && limit_for(config, endpoint_type_of(path))
            == config.transform_requests_per_minute,
        (forall|k: int| !crate::text::matches_at(path, "/chat"@, k) && !crate::text::matches_at(path, "/transforms"@, k))
            && i + 5 <= path.len() && path.subrange(i, i + 5) == "/test"@ ==> endpoint_type_of(path) == "test"@
            && limit_for(config, endpoint_type_of(path)) == config.test_requests_per_minute,
{
    reveal_strlit("/chat");
    reveal_strlit("/transforms");
    reveal_strlit("/test");
    reveal_strlit("search");
    reveal_strlit("chat");
    reveal_strlit("transform");
    reveal_strlit("test");
    assert("chat"@.len() != "search"@.len());
    assert("transform"@.len() != "search"@.len() && "transform"@.len() != "chat"@.len());
    assert("test"@.len() != "search"@.len() && "test"@.len() != "transform"@.len());
    assert("test"@[0] != "chat"@[0]);
    if i + 5 <= path.len() && path.subrange(i, i + 5) == "/chat"@ {
        assert(crate::text::matches_at(path, "/chat"@, i));
    }
    if i + 11 <= path.len() && path.subrange(i, i + 11) == "/transforms"@ {
        assert(crate::text::matches_at(path, "/transforms"@, i));
    }
    if i + 5 <= path.len() && path.subrange(i, i + 5) == "/test"@ {
        assert(crate::text::matches_at(path, "/test"@, i));
    }
}

/// A path without "/search", "/embedding", "/chat", "/transforms" or
/// "/test" gets the default limit.
pub proof fn lemma_other_paths_get_default(path: Seq<char>, config: RateLimitConfig)
    requires
        forall|i: int| !crate::text::matches_at(path, "/search"@, i) && !crate::text::matches_at(path, "/embedding"@, i)
            && !crate::text::matches_at(path, "/chat"@, i) && !crate::text::matches_at(path, "/transforms"@, i)
            && !crate::text::matches_at(path, "/test"@, i),
    ensures
        endpoint_type_of(path) == "default"@,
        limit_for(config, endpoint_type_of(path)) == config.default_requests_per_minute,
{
    reveal_strlit("search");
    reveal_strlit("chat");
    reveal_strlit("transform");
    reveal_strlit("test");
    reveal_strlit("default");
    assert("default"@.len() != "search"@.len() && "default"@.len() != "chat"@.len());
    assert("default"@.len() != "transform"@.len() && "default"@.len() != "test"@.len());
}

/// The per-minute limit configured for an endpoint type; unknown types get
/// the default limit.
pub open spec fn limit_for(config: RateLimitConfig, endpoint_type: Seq<char>) -> u64 {
    if endpoint_type == "search"@ {
        config.search_requests_per_minute
    } else if endpoint_type == "chat"@ {
        config.chat_requests_per_minute
    } else if endpoint_type == "transform"@ {
        config.transform_requests_per_minute
    } else if endpoint_type == "test"@ {
        config.test_requests_per_minute
    } else {
        config.default_requests_per_minute
    }
}

/// The rate limiter: decides the limit, counter key and window of each
/// check. The window counters live in an outside store.
pub struct RateLimiter {
    pub config: RateLimitConfig,
}

/// A check to run against the window store: add the request to the window
/// under `window_key` when fewer than `limit` requests are counted.
pub struct WindowCheck {
    pub window_key: String,
    pub limit: u64,
    pub now: u64,
    pub window: u64,
}

impl RateLimiter {
    /// Creates a rate limiter with the given settings.
    pub fn new(config: RateLimitConfig) -> (r: Self)
        ensures
            r.config == config,
    {
        RateLimiter { config }
    }

    /// The per-minute limit for an endpoint type.
    pub fn get_limit_for_endpoint(&self, endpoint_type: &str) -> (r: u64)
        ensures
            r == limit_for(self.config, endpoint_type@),
    {
        let t = str_to_chars(endpoint_type);
        if chars_eq_str(t.as_slice(), "search") {
            self.config.search_requests_per_minute
        } else if chars_eq_str(t.as_slice(), "chat") {
            self.config.chat_requests_per_minute
        } else if chars_eq_str(t.as_slice(), "transform") {
            self.config.transform_requests_per_minute
        } else if chars_eq_str(t.as_slice(), "test") {
            self.config.test_requests_per_minute
        } else {
            self.config.default_requests_per_minute
        }
    }

    /// The window check for a request of `username` to an endpoint type at
    /// Unix time `now` (seconds): the endpoint's limit, and the key of the
    /// user's counter in the current one-minute window.
    pub fn window_check(&self, username: &str, endpoint_type: &str, now: u64) -> (r: WindowCheck)
        ensures
            r.limit == limit_for(self.config, endpoint_type@),
            r.now == now,
            r.window == now / 60,
            r.window_key@ == rate_limit_key_spec(endpoint_type@, username@) + ":"@ + decimal(
                (now / 60) as nat,
            ),
    {
        let limit = self.get_limit_for_endpoint(endpoint_type);
        let key = rate_limit_key(endpoint_type, username);
        let window = rate_limit_window(now);
        let window_key = window_key(key.as_str(), window);
        WindowCheck { window_key, limit, now, window }
    }
}

/// Only `/api/` requests are rate limited, and only when limiting is on.
pub open spec fn is_rate_limited(path: Seq<char>, enabled: bool) -> bool {
    enabled && starts_with(path, "/api/"@)
}

/// Decides whether a request is subject to rate limiting.
pub fn should_rate_limit(path: &str, enabled: bool) -> (r: bool)
    ensures
        r == is_rate_limited(path@, enabled),
{
    let p = str_to_chars(path);
    enabled && starts_with_str(p.as_slice(), "/api/")
}

/// The identity a request is limited under: the authenticated user, or
/// "anonymous".
pub fn rate_limit_identity(username: Option<String>) -> (r: String)
    ensures
        r@ == match username {
            Some(u) => u@,
            None => "anonymous"@,
        },
{
    match username {
        Some(u) => u,
        None => "anonymous".to_string(),
    }
}

/// The store key of a user's counter for an endpoint type:
/// "rate_limit:{endpoint_type}:{username}".
pub open spec fn rate_limit_key_spec(endpoint_type: Seq<char>, username: Seq<char>) -> Seq<char> {
    "rate_limit:"@ + endpoint_type + ":"@ + username
}

/// Builds the counter key of a user for an endpoint type.
pub fn rate_limit_key(endpoint_type: &str, username: &str) -> (r: String)
    ensures
        r@ == rate_limit_key_spec(endpoint_type@, username@),
{
    let mut v: Vec<char> = Vec::new();
    append_str(&mut v, "rate_limit:");
    append_str(&mut v, endpoint_type);
    append_str(&mut v, ":");
    append_str(&mut v, username);
    chars_to_string(v.as_slice())
}

/// The one-minute window that a Unix time in seconds falls in.
pub fn rate_limit_window(now_secs: u64) -> (r: u64)
    ensures
        r == now_secs / 60,
{
    now_secs / 60
}

/// Builds the key of a counter's window: "{key}:{window}".
pub fn window_key(key: &str, window: u64) -> (r: String)
    ensures
        r@ == key@ + ":"@ + decimal(window as nat),
{
    let mut v: Vec<char> = Vec::new();
    append_str(&mut v, key);
    append_str(&mut v, ":");
    let w = decimal_chars(window);
    append_chars(&mut v, w.as_slice());
    chars_to_string(v.as_slice())
}

/// Requests of one user to one endpoint type within the same minute count
/// against the same window; requests in different minutes do not.
pub proof fn lemma_window_per_minute(endpoint_type: Seq<char>, username: Seq<char>, now1: u64, now2: u64)
    ensures
        (rate_limit_key_spec(endpoint_type, username) + ":"@ + decimal((now1 / 60) as nat)
            == rate_limit_key_spec(endpoint_type, username) + ":"@ + decimal((now2 / 60) as nat))
            <==> now1 / 60 == now2 / 60,
{
    let k = rate_limit_key_spec(endpoint_type, username) + ":"@;
    if k + decimal((now1 / 60) as nat) == k + decimal((now2 / 60) as nat) {
        assert(decimal((now1 / 60) as nat) =~= (k + decimal((now1 / 60) as nat)).skip(k.len() as int));
        assert(decimal((now2 / 60) as nat) =~= (k + decimal((now2 / 60) as nat)).skip(k.len() as int));
        lemma_decimal_injective((now1 / 60) as nat, (now2 / 60) as nat);
    }
}

/// Reads the window store's reply `[allowed, remaining, next_window]`: the
/// request is allowed when the first value is 1; the remaining count is
/// taken as an unsigned integer; the reset time is the start of the next
/// window in seconds.
pub fn rate_limit_result(limit: u64, reply: &[i64]) -> (r: RateLimitResult)
    requires
        reply@.len() >= 3,
        (reply@[2] as u64) * 60 <= u64::MAX,
    ensures
        r.allowed == (reply@[0] == 1),
        r.limit == limit,
        r.remaining == reply@[1] as u64,
        r.reset_time == (reply@[2] as u64) * 60,
{
    let allowed = reply[0] == 1;
    let remaining = reply[1] as u64;
    let reset_time = (reply[2] as u64) * 60;
    RateLimitResult { allowed, limit, remaining, reset_time }
}

/// The seconds a rejected client should wait: from now to the reset time.
pub fn retry_after_seconds(reset_time: u64, now_secs: u64) -> (r: u64)
    requires
        now_secs <= reset_time,
    ensures
        r == reset_time - now_secs,
{
    reset_time - now_secs
}

/// A response header.
pub struct Header {
    pub name: String,
    pub value: String,
}

fn header(name: &str, value: &[char]) -> (r: Header)
    ensures
        r.name@ == name@,
        r.value@ == value@,
{
    Header { name: name.to_string(), value: chars_to_string(value) }
}

/// The rate limit headers added to an allowed response: limit, remaining
/// requests and reset time.
pub fn rate_limit_headers(result: &RateLimitResult) -> (r: Vec<Header>)
    ensures
        r.len() == 3,
        r[0].name@ == "x-ratelimit-limit"@ && r[0].value@ == decimal(result.limit as nat),
        r[1].name@ == "x-ratelimit-remaining"@ && r[1].value@ == decimal(result.remaining as nat),
        r[2].name@ == "x-ratelimit-reset"@ && r[2].value@ == decimal(result.reset_time as nat),
{
    let mut v: Vec<Header> = Vec::new();
    v.push(header("x-ratelimit-limit", decimal_chars(result.limit).as_slice()));
    v.push(header("x-ratelimit-remaining", decimal_chars(result.remaining).as_slice()));
    v.push(header("x-ratelimit-reset", decimal_chars(result.reset_time).as_slice()));
    v
}

/// The headers of a 429 response: the limit, zero remaining, the reset time
/// and the seconds to wait.
pub fn rejection_headers(result: &RateLimitResult, retry_after: u64) -> (r: Vec<Header>)
    ensures
        r.len() == 4,
        r[0].name@ == "X-RateLimit-Limit"@ && r[0].value@ == decimal(result.limit as nat),
        r[1].name@ == "X-RateLimit-Remaining"@ && r[1].value@ == "0"@,
        r[2].name@ == "X-RateLimit-Reset"@ && r[2].value@ == decimal(result.reset_time as nat),
        r[3].name@ == "Retry-After"@ && r[3].value@ == decimal(retry_after as nat),
{
    let mut v: Vec<Header> = Vec::new();
    v.push(header("X-RateLimit-Limit", decimal_chars(result.limit).as_slice()));
    v.push(header("X-RateLimit-Remaining", str_to_chars("0").as_slice()));
    v.push(header("X-RateLimit-Reset", decimal_chars(result.reset_time).as_slice()));
    v.push(header("Retry-After", decimal_chars(retry_after).as_slice()));
    v
}

/// The details recorded in the audit event of a rejected request.
pub fn rate_limit_audit_details(path: &str, limit: u64) -> (r: String)
    ensures
        r@ == "endpoint: "@ + path@ + ", limit: "@ + decimal(limit as nat),
{
    let mut v: Vec<char> = Vec::new();
    append_str(&mut v, "endpoint: ");
    append_str(&mut v, path);
    append_str(&mut v, ", limit: ");
    append_chars(&mut v, decimal_chars(limit).as_slice());
    chars_to_string(v.as_slice())
}

/// How a rate-limited request is answered.
pub enum RateLimitOutcome {
    /// The limiter could not be asked: the request passes unchecked.
    FailOpen,
    /// The request passes; its response carries these headers.
    Allowed(Vec<Header>),
    /// 429 Too Many Requests, with these headers and the seconds to wait.
    Rejected { headers: Vec<Header>, retry_after: u64 },
}

/// Answers a rate-limited request from the limiter's verdict (`None` when
/// the limiter failed) at time `now` (Unix seconds).
pub fn rate_limit_outcome(result: Option<&RateLimitResult>, now: u64) -> (r: RateLimitOutcome)
    requires
        result matches Some(res) ==> (res.allowed || now <= res.reset_time),
    ensures
        result is None ==> r is FailOpen,
        result matches Some(res) ==> (res.allowed <==> r is Allowed),
        r matches RateLimitOutcome::Allowed(h) ==> h.len() == 3
            && h[0].name@ == "x-ratelimit-limit"@ && h[0].value@ == decimal(result->0.limit as nat)
            && h[1].name@ == "x-ratelimit-remaining"@ && h[1].value@ == decimal(result->0.remaining as nat)
            && h[2].name@ == "x-ratelimit-reset"@ && h[2].value@ == decimal(result->0.reset_time as nat),
        r matches RateLimitOutcome::Rejected { headers, retry_after } ==> {
            &&& retry_after == result->0.reset_time - now
            &&& headers.len() == 4
            &&& headers[0].name@ == "X-RateLimit-Limit"@ && headers[0].value@ == decimal(result->0.limit as nat)
            &&& headers[1].name@ == "X-RateLimit-Remaining"@ && headers[1].value@ == "0"@
            &&& headers[2].name@ == "X-RateLimit-Reset"@ && headers[2].value@ == decimal(result->0.reset_time as nat)
            &&& headers[3].name@ == "Retry-After"@ && headers[3].value@ == decimal(retry_after as nat)
        },
{
    match result {
        None => RateLimitOutcome::FailOpen,
        Some(res) => if res.allowed {
            RateLimitOutcome::Allowed(rate_limit_headers(res))
        } else {
            let retry_after = retry_after_seconds(res.reset_time, now);
            RateLimitOutcome::Rejected { headers: rejection_headers(res, retry_after), retry_after }
        },
    }
}

} // verus!
