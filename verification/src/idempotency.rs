//! Idempotency of transform triggers: which requests are subject to it,
//! the store key of a request, and the response replayed for a repeated
//! request.
use vstd::prelude::*;
use crate::openid::{eq_ignore_ascii_case, eq_ignore_ascii_case_chars};
use crate::rate_limit::Header;
use crate::text::{
    append_str, chars_to_string, contains_seq, contains_str, ends_with, ends_with_str, str_to_chars,
};

verus! {

/// The request header that carries the idempotency key.
pub const IDEMPOTENCY_KEY_HEADER: &'static str = "Idempotency-Key";

/// How long a stored response is replayed, in seconds (24 hours).
pub const IDEMPOTENCY_TTL_SECS: u64 = 86400;

/// Idempotency settings. The store connection is held by the caller.
pub struct IdempotencyConfig {
    pub enabled: bool,
    pub key_prefix: String,
    pub ttl_secs: u64,
}

impl IdempotencyConfig {
    /// Enabled, with key prefix "idempotency" and a 24 hour lifetime.
    pub fn new() -> (r: Self)
        ensures
            r.enabled,
            r.key_prefix@ == "idempotency"@,
            r.ttl_secs == IDEMPOTENCY_TTL_SECS,
    {
        IdempotencyConfig { enabled: true, key_prefix: "idempotency".to_string(), ttl_secs: IDEMPOTENCY_TTL_SECS }
    }

    /// The same settings with another key prefix.
    pub fn with_prefix(self, prefix: String) -> (r: Self)
        ensures
            r.enabled == self.enabled,
            r.key_prefix == prefix,
            r.ttl_secs == self.ttl_secs,
    {
        let mut c = self;
        c.key_prefix = prefix;
        c
    }

    /// The same settings with another lifetime.
    pub fn with_ttl(self, ttl_secs: u64) -> (r: Self)
        ensures
            r.enabled == self.enabled,
            r.key_prefix == self.key_prefix,
            r.ttl_secs == ttl_secs,
    {
        let mut c = self;
        c.ttl_secs = ttl_secs;
        c
    }
}

/// Only POST requests to transform trigger endpoints are subject to
/// idempotency checks.
pub open spec fn is_idempotent_endpoint(method: Seq<char>, path: Seq<char>) -> bool {
    eq_ignore_ascii_case(method, "POST"@) && contains_seq(path, "/transforms/"@) && ends_with(
        path,
        "/trigger"@,
    )
}

/// The store key of a request: "{prefix}:{username}:{key}:{endpoint}".
pub open spec fn idempotency_key_spec(
    prefix: Seq<char>,
    username: Seq<char>,
    key: Seq<char>,
    endpoint: Seq<char>,
) -> Seq<char> {
    prefix + ":"@ + username + ":"@ + key + ":"@ + endpoint
}

/// The idempotency key header of a request.
pub enum KeyHeader {
    /// The request has no idempotency key.
    Missing,
    /// The header value is not visible ASCII text.
    Invalid,
    /// The key.
    Valid(String),
}

/// What the idempotency middleware does with a request.
pub enum IdempotencyPlan {
    /// Process the request normally.
    Bypass,
    /// Look for a stored response under this key before processing.
    Check(String),
}

/// Idempotency middleware.
pub struct IdempotencyMiddleware {
    pub config: IdempotencyConfig,
}

fn method_is_post(method: &str) -> (r: bool)
    ensures
        r == eq_ignore_ascii_case(method@, "POST"@),
{
    let m = str_to_chars(method);
    let p = str_to_chars("POST");
    eq_ignore_ascii_case_chars(m.as_slice(), p.as_slice())
}

impl IdempotencyMiddleware {
    /// Creates the middleware with the given settings.
    pub fn new(config: IdempotencyConfig) -> (r: Self)
        ensures
            r.config == config,
    {
        IdempotencyMiddleware { config }
    }

    /// Checks whether a request is subject to idempotency checks.
    pub fn should_check_idempotency(method: &str, path: &str) -> (r: bool)
        ensures
            r == is_idempotent_endpoint(method@, path@),
    {
        if !method_is_post(method) {
            return false;
        }
        let p = str_to_chars(path);
        contains_str(p.as_slice(), "/transforms/") && ends_with_str(p.as_slice(), "/trigger")
    }

    /// Builds the store key of a request.
    pub fn build_redis_key(config: &IdempotencyConfig, username: &str, idempotency_key: &str, endpoint: &str) -> (r: String)
        ensures
            r@ == idempotency_key_spec(config.key_prefix@, username@, idempotency_key@, endpoint@),
    {
        let mut v: Vec<char> = Vec::new();
        append_str(&mut v, config.key_prefix.as_str());
        append_str(&mut v, ":");
        append_str(&mut v, username);
        append_str(&mut v, ":");
        append_str(&mut v, idempotency_key);
        append_str(&mut v, ":");
        append_str(&mut v, endpoint);
        chars_to_string(v.as_slice())
    }

    /// Decides how a request is handled: it is checked only when idempotency
    /// is on, the endpoint is a transform trigger, the request carries a
    /// valid key and an authenticated user; the store key uses the request
    /// path as endpoint.
    pub fn plan(&self, method: &str, path: &str, key_header: KeyHeader, username: Option<String>) -> (r: IdempotencyPlan)
        ensures
            (self.config.enabled && is_idempotent_endpoint(method@, path@) && key_header is Valid
                && username is Some) <==> r is Check,
            r matches IdempotencyPlan::Check(k) ==> k@ == idempotency_key_spec(
                self.config.key_prefix@,
                username->0@,
                key_header->Valid_0@,
                path@,
            ),
    {
        if !self.config.enabled {
            return IdempotencyPlan::Bypass;
        }
        if !Self::should_check_idempotency(method, path) {
            return IdempotencyPlan::Bypass;
        }
        let key = match key_header {
            KeyHeader::Valid(k) => k,
            _ => return IdempotencyPlan::Bypass,
        };
        let user = match username {
            Some(u) => u,
            None => return IdempotencyPlan::Bypass,
        };
        IdempotencyPlan::Check(Self::build_redis_key(&self.config, user.as_str(), key.as_str(), path))
    }
}

/// A stored response: status and headers, with an empty body.
pub struct IdempotentResponse {
    pub status: u16,
    pub headers: Vec<Header>,
    pub body: String,
    pub timestamp: i64,
}

/// Only successful (2xx) responses are stored.
pub fn should_cache_response(status: u16) -> (r: bool)
    ensures
        r == (200 <= status <= 299),
{
    200 <= status && status <= 299
}

/// The stored form of a successful response: its status and headers; the
/// body is not captured and is stored empty.
pub fn cached_response(status: u16, headers: Vec<Header>, timestamp: i64) -> (r: IdempotentResponse)
    ensures
        r.status == status,
        r.headers == headers,
        r.body@ == Seq::<char>::empty(),
        r.timestamp == timestamp,
{
    IdempotentResponse { status, headers, body: String::new(), timestamp }
}

/// The status of a replayed response: the stored one when it is a valid
/// status code (100 to 999), 200 otherwise.
pub fn replay_status(stored: u16) -> (r: u16)
    ensures
        r == if 100 <= stored <= 999 {
            stored
        } else {
            200
        },
{
    if 100 <= stored && stored <= 999 {
        stored
    } else {
        200
    }
}

/// A character that may appear in a header value: a tab, or anything but
/// a control character.
pub open spec fn header_value_char(c: char) -> bool {
    c == '\t' || ((c as u32) >= 32 && (c as u32) != 127)
}

/// `s` can be a header value.
pub open spec fn valid_header_value(s: Seq<char>) -> bool {
    forall|i: int| 0 <= i < s.len() ==> header_value_char(#[trigger] s[i])
}

fn valid_header_value_exec(s: &str) -> (r: bool)
    ensures
        r == valid_header_value(s@),
{
    let c = str_to_chars(s);
    let mut i: usize = 0;
    while i < c.len()
        invariant
            c@ == s@,
            i <= c.len(),
            forall|j: int| 0 <= j < i ==> header_value_char(#[trigger] c@[j]),
        decreases c.len() - i,
    {
        let ch = c[i];
        if !(ch == '\t' || ((ch as u32) >= 32 && (ch as u32) != 127)) {
            return false;
        }
        i = i + 1;
    }
    true
}

/// The stored headers that are valid header values, in order.
pub open spec fn replayable_headers(headers: Seq<Header>) -> Seq<Header>
    decreases headers.len(),
{
    if headers.len() == 0 {
        seq![]
    } else if valid_header_value(headers.last().value@) {
        replayable_headers(headers.drop_last()).push(headers.last())
    } else {
        replayable_headers(headers.drop_last())
    }
}

/// The headers of a replayed response: the stored headers whose values are
/// valid, followed by "X-Idempotency-Replay: true".
pub fn replay_headers(stored: &Vec<Header>) -> (r: Vec<Header>)
    ensures
        r@.len() == replayable_headers(stored@).len() + 1,
        forall|i: int|
            0 <= i < replayable_headers(stored@).len() ==> r@[i].name@ == replayable_headers(stored@)[i].name@
                && r@[i].value@ == replayable_headers(stored@)[i].value@,
        r@.last().name@ == "X-Idempotency-Replay"@,
        r@.last().value@ == "true"@,
{
    let mut out: Vec<Header> = Vec::new();
    let mut i: usize = 0;
    while i < stored.len()
        invariant
            i <= stored.len(),
            out@.len() == replayable_headers(stored@.take(i as int)).len(),
            forall|j: int|
                0 <= j < out@.len() ==> out@[j].name@ == replayable_headers(stored@.take(i as int))[j].name@
                    && out@[j].value@ == replayable_headers(stored@.take(i as int))[j].value@,
        decreases stored.len() - i,
    {
        assert(stored@.take(i + 1).drop_last() =~= stored@.take(i as int));
        let h = &stored[i];
        if valid_header_value_exec(h.value.as_str()) {
            out.push(Header { name: h.name.clone(), value: h.value.clone() });
        }
        i = i + 1;
    }
    assert(stored@.take(stored.len() as int) =~= stored@);
    out.push(Header { name: "X-Idempotency-Replay".to_string(), value: "true".to_string() });
    out
}

/// The name and value of each header.
pub open spec fn header_views(h: Seq<Header>) -> Seq<(Seq<char>, Seq<char>)> {
    h.map_values(|x: Header| (x.name@, x.value@))
}

/// The status a stored status is replayed with.
pub open spec fn replay_status_spec(stored: u16) -> u16 {
    if 100 <= stored <= 999 {
        stored
    } else {
        200
    }
}

/// A response replayed from the store.
pub struct ReplayedResponse {
    pub status: u16,
    pub headers: Vec<Header>,
    pub body: String,
}

/// `r` replays `stored`: its status, its valid headers followed by
/// "X-Idempotency-Replay: true", and its body.
pub open spec fn is_replay_of(r: ReplayedResponse, stored: IdempotentResponse) -> bool {
    &&& r.status == replay_status_spec(stored.status)
    &&& header_views(r.headers@) == header_views(replayable_headers(stored.headers@)).push(
        ("X-Idempotency-Replay"@, "true"@),
    )
    &&& r.body@ == stored.body@
}

/// Builds the response that replays a stored one.
pub fn replay_response(stored: &IdempotentResponse) -> (r: ReplayedResponse)
    ensures
        is_replay_of(r, *stored),
{
    let status = replay_status(stored.status);
    let headers = replay_headers(&stored.headers);
    let body = stored.body.clone();
    let r = ReplayedResponse { status, headers, body };
    assert(header_views(r.headers@) =~= header_views(replayable_headers(stored.headers@)).push(
        ("X-Idempotency-Replay"@, "true"@),
    ));
    r
}

/// Every stored header with a valid value is replayed.
proof fn lemma_replayable_keeps(headers: Seq<Header>, i: int)
    requires
        0 <= i < headers.len(),
        valid_header_value(headers[i].value@),
    ensures
        header_views(replayable_headers(headers)).contains((headers[i].name@, headers[i].value@)),
    decreases headers.len(),
{
    let rest = headers.drop_last();
    let hv = (headers[i].name@, headers[i].value@);
    if i == headers.len() - 1 {
        let r = replayable_headers(headers);
        assert(header_views(r)[r.len() - 1] == hv);
    } else {
        assert(rest[i] == headers[i]);
        lemma_replayable_keeps(rest, i);
        let k = choose|k: int| 0 <= k < header_views(replayable_headers(rest)).len()
            && header_views(replayable_headers(rest))[k] == hv;
        if valid_header_value(headers.last().value@) {
            assert(header_views(replayable_headers(headers))[k] == hv);
        }
    }
}

/// A repeated request is answered from the store: when the first request's
/// response was successful and stored (status and headers, empty body), the
/// replay has that status, every header of it whose value is valid (and
/// only those, in order) followed by "X-Idempotency-Replay: true", and an
/// empty body. Both requests look the store up under the same key, since
/// the key depends only on the prefix, user, idempotency key and path.
pub proof fn lemma_idempotent_replay(
    status: u16,
    headers: Seq<Header>,
    stored: IdempotentResponse,
    replay: ReplayedResponse,
)
    requires
        200 <= status <= 299,
        stored.status == status,
        stored.headers@ == headers,
        stored.body@ == Seq::<char>::empty(),
        is_replay_of(replay, stored),
    ensures
        replay.status == status,
        header_views(replay.headers@) == header_views(replayable_headers(headers)).push(
            ("X-Idempotency-Replay"@, "true"@),
        ),
        forall|i: int|
            0 <= i < headers.len() && valid_header_value(#[trigger] headers[i].value@) ==> header_views(
                replay.headers@,
            ).contains((headers[i].name@, headers[i].value@)),
        replay.body@.len() == 0,
{
    assert forall|i: int|
        0 <= i < headers.len() && valid_header_value(#[trigger] headers[i].value@) implies header_views(
            replay.headers@,
        ).contains((headers[i].name@, headers[i].value@)) by {
        lemma_replayable_keeps(headers, i);
        let hv = (headers[i].name@, headers[i].value@);
        let base = header_views(replayable_headers(headers));
        let k = choose|k: int| 0 <= k < base.len() && base[k] == hv;
        assert(header_views(replay.headers@)[k] == hv);
    }
}


/// What happens to a checked request once the store was asked for its key.
pub enum LookupAction {
    /// Answer with the replayed response; the request is not processed.
    Replay(ReplayedResponse),
    /// Process the request.
    CallInner,
}

/// `r` answers a store lookup that found `stored` (`None`: nothing usable
/// was found, or the store failed).
pub open spec fn is_lookup_answer(r: LookupAction, stored: Option<IdempotentResponse>) -> bool {
    match stored {
        Some(s) => r matches LookupAction::Replay(x) && is_replay_of(x, s),
        None => r is CallInner,
    }
}

/// Decides a checked request from what the store held under its key: a
/// stored response is replayed and the request is not processed; otherwise
/// it is processed.
pub fn on_store_lookup(stored: Option<IdempotentResponse>) -> (r: LookupAction)
    ensures
        is_lookup_answer(r, stored),
{
    match stored {
        Some(s) => LookupAction::Replay(replay_response(&s)),
        None => LookupAction::CallInner,
    }
}

/// A write to the store: the response kept under a key for `ttl_secs`.
pub struct StoreWrite {
    pub key: String,
    pub ttl_secs: u64,
    pub response: IdempotentResponse,
}

/// `w` is what a processed request's response leads to: a successful
/// response is stored, with its status and headers and an empty body, under
/// the request's key; any other is not.
pub open spec fn is_store_write(
    w: Option<StoreWrite>,
    key: Seq<char>,
    ttl_secs: u64,
    status: u16,
    headers: Seq<Header>,
    timestamp: i64,
) -> bool {
    if 200 <= status <= 299 {
        &&& w matches Some(x)
        &&& x.key@ == key
        &&& x.ttl_secs == ttl_secs
        &&& x.response.status == status
        &&& x.response.headers@ == headers
        &&& x.response.body@ == Seq::<char>::empty()
        &&& x.response.timestamp == timestamp
    } else {
        w is None
    }
}

/// Decides what a processed request's response leads to.
pub fn on_inner_response(key: &str, ttl_secs: u64, status: u16, headers: Vec<Header>, timestamp: i64) -> (r: Option<StoreWrite>)
    ensures
        is_store_write(r, key@, ttl_secs, status, headers@, timestamp),
{
    if should_cache_response(status) {
        Some(StoreWrite { key: key.to_string(), ttl_secs, response: cached_response(status, headers, timestamp) })
    } else {
        None
    }
}

/// A repeated request is not processed again: when the first request's
/// successful response was written to the store, and the second request's
/// lookup finds what was written, the second request is answered with the
/// replay (status, the valid headers, "X-Idempotency-Replay: true", empty
/// body) and the request is not passed on.
pub proof fn lemma_repeated_request_skips_processing(
    key: Seq<char>,
    ttl_secs: u64,
    status: u16,
    headers: Seq<Header>,
    timestamp: i64,
    first: Option<StoreWrite>,
    second: LookupAction,
)
    requires
        is_store_write(first, key, ttl_secs, status, headers, timestamp),
        200 <= status <= 299,
        is_lookup_answer(second, Some(first->0.response)),
    ensures
        second matches LookupAction::Replay(x) && x.status == status && header_views(x.headers@)
            == header_views(replayable_headers(headers)).push(("X-Idempotency-Replay"@, "true"@))
            && x.body@.len() == 0,
{
    let w = first->0;
    let x = second->Replay_0;
    lemma_idempotent_replay(status, headers, w.response, x);
}

} // verus!
