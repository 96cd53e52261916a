//! OpenID Connect session logic: cached user information, bearer token
//! extraction, the auth cookies and their attributes, and the routing of a
//! request through bearer or cookie authentication.
use vstd::prelude::*;
use crate::text::{append_str, chars_to_string, starts_with, starts_with_str, str_to_chars};

verus! {

/// The characters of an optional owned string.
pub open spec fn opt_string_view(o: Option<String>) -> Option<Seq<char>> {
    match o {
        Some(s) => Some(s@),
        None => None,
    }
}

/// The characters of an optional string slice.
pub open spec fn opt_str_view(o: Option<&str>) -> Option<Seq<char>> {
    match o {
        Some(s) => Some(s@),
        None => None,
    }
}

fn opt_as_str(o: &Option<String>) -> (r: Option<&str>)
    ensures
        opt_str_view(r) == opt_string_view(*o),
{
    match o {
        Some(s) => Some(s.as_str()),
        None => None,
    }
}

/// User information from the OIDC provider, as cached in cookies and in the
/// bearer token caches.
pub struct CachedUserInfo {
    pub sub: Option<String>,
    pub preferred_username: Option<String>,
    pub email: Option<String>,
    pub email_verified: Option<bool>,
    pub name: Option<String>,
    pub picture: Option<String>,
}

impl CachedUserInfo {
    /// The preferred username claim.
    pub fn preferred_username(&self) -> (r: Option<&str>)
        ensures
            opt_str_view(r) == opt_string_view(self.preferred_username),
    {
        opt_as_str(&self.preferred_username)
    }

    /// The email claim.
    pub fn email(&self) -> (r: Option<&str>)
        ensures
            opt_str_view(r) == opt_string_view(self.email),
    {
        opt_as_str(&self.email)
    }

    /// The picture URL claim.
    pub fn picture_url(&self) -> (r: Option<&str>)
        ensures
            opt_str_view(r) == opt_string_view(self.picture),
    {
        opt_as_str(&self.picture)
    }
}

/// The user attached to a request by the authentication middleware.
pub struct AuthenticatedUser {
    pub access: CachedUserInfo,
}

/// Extractor result for a request that passed authentication.
pub struct Authenticated(AuthenticatedUser);

impl Authenticated {
    /// The authenticated user of the request.
    pub closed spec fn user_spec(&self) -> AuthenticatedUser {
        self.0
    }

    /// Wraps the user attached to a request.
    pub fn new(user: AuthenticatedUser) -> (r: Self)
        ensures
            r.user_spec() == user,
    {
        Authenticated(user)
    }

    /// The authenticated user.
    pub fn user(&self) -> (r: &AuthenticatedUser)
        ensures
            *r == self.user_spec(),
    {
        &self.0
    }
}

/// `c` lowered if it is an ASCII capital letter.
pub open spec fn ascii_lower(c: char) -> char {
    if 'A' <= c <= 'Z' {
        ((c as u32) + 32) as char
    } else {
        c
    }
}

/// `a` and `b` are equal ignoring ASCII case.
pub open spec fn eq_ignore_ascii_case(a: Seq<char>, b: Seq<char>) -> bool {
    a.len() == b.len() && forall|i: int| 0 <= i < a.len() ==> ascii_lower(#[trigger] a[i]) == ascii_lower(b[i])
}

/// All characters of `s` are ASCII.
pub open spec fn all_ascii(s: Seq<char>) -> bool {
    forall|i: int| 0 <= i < s.len() ==> (#[trigger] s[i] as u32) < 128
}

/// The token carried by an Authorization header value: the text after a
/// "Bearer " prefix (in any ASCII case), or the whole value when it has no
/// such prefix.
pub open spec fn bearer_token(value: Seq<char>) -> Seq<char> {
    if value.len() > 7 && eq_ignore_ascii_case(value.take(7), "bearer "@) {
        value.skip(7)
    } else {
        value
    }
}

fn ascii_lower_exec(c: char) -> (r: char)
    ensures
        r == ascii_lower(c),
{
    if 'A' <= c && c <= 'Z' {
        (((c as u32) + 32) as u8) as char
    } else {
        c
    }
}

/// Compares two texts ignoring ASCII case.
pub fn eq_ignore_ascii_case_chars(a: &[char], b: &[char]) -> (r: bool)
    ensures
        r == eq_ignore_ascii_case(a@, b@),
{
    if a.len() != b.len() {
        return false;
    }
    let mut i: usize = 0;
    while i < a.len()
        invariant
            a.len() == b.len(),
            i <= a.len(),
            forall|j: int| 0 <= j < i ==> ascii_lower(#[trigger] a@[j]) == ascii_lower(b@[j]),
        decreases a.len() - i,
    {
        if ascii_lower_exec(a[i]) != ascii_lower_exec(b[i]) {
            return false;
        }
        i = i + 1;
    }
    true
}

/// Extracts the bearer token from the Authorization header value, when the
/// request has one that is visible ASCII text. The "Bearer " prefix is
/// optional: a raw token is accepted as it is.
pub fn extract_bearer_token(header_value: Option<&str>) -> (r: Option<String>)
    requires
        header_value matches Some(v) ==> all_ascii(v@),
    ensures
        opt_string_view(r) == match header_value {
            Some(v) => Some(bearer_token(v@)),
            None => None,
        },
{
    let value = match header_value {
        Some(v) => v,
        None => return None,
    };
    let chars = str_to_chars(value);
    let prefix = str_to_chars("bearer ");
    proof {
        reveal_strlit("bearer ");
    }
    assert(prefix@.len() == 7);
    let mut has_prefix = chars.len() > 7;
    if has_prefix {
        let mut i: usize = 0;
        while i < 7
            invariant
                chars@ == value@,
                chars.len() > 7,
                prefix@ == "bearer "@,
                prefix@.len() == 7,
                i <= 7,
                has_prefix <==> forall|j: int| 0 <= j < i ==> ascii_lower(chars@[j]) == ascii_lower(prefix@[j]),
            decreases 7 - i,
        {
            if ascii_lower_exec(chars[i]) != ascii_lower_exec(prefix[i]) {
                has_prefix = false;
            }
            i = i + 1;
        }
        assert(has_prefix == eq_ignore_ascii_case(chars@.take(7), "bearer "@)) by {
            assert forall|j: int| 0 <= j < 7 implies chars@.take(7)[j] == chars@[j] by {}
        }
    }
    if has_prefix {
        let mut out: Vec<char> = Vec::new();
        let mut k: usize = 7;
        while k < chars.len()
            invariant
                7 <= k <= chars.len(),
                out@ == chars@.subrange(7, k as int),
            decreases chars.len() - k,
        {
            out.push(chars[k]);
            assert(chars@.subrange(7, k + 1) =~= chars@.subrange(7, k as int).push(chars@[k as int]));
            k = k + 1;
        }
        assert(chars@.subrange(7, chars.len() as int) =~= chars@.skip(7));
        Some(chars_to_string(out.as_slice()))
    } else {
        Some(value.to_string())
    }
}

/// The cookies that hold the authentication state.
pub enum AuthCookies {
    AccessToken,
    IdToken,
    RefreshToken,
    UserInfo,
    PkceVerifier,
    Nonce,
}

/// The name of each auth cookie.
pub open spec fn auth_cookie_name(c: AuthCookies) -> Seq<char> {
    match c {
        AuthCookies::AccessToken => "access_token"@,
        AuthCookies::IdToken => "id_token"@,
        AuthCookies::RefreshToken => "refresh_token"@,
        AuthCookies::UserInfo => "user_info"@,
        AuthCookies::Nonce => "nonce"@,
        AuthCookies::PkceVerifier => "pkce_verifier"@,
    }
}

impl AuthCookies {
    /// The cookie's name.
    pub fn name(&self) -> (r: &'static str)
        ensures
            r@ == auth_cookie_name(*self),
    {
        match self {
            AuthCookies::AccessToken => "access_token",
            AuthCookies::IdToken => "id_token",
            AuthCookies::RefreshToken => "refresh_token",
            AuthCookies::UserInfo => "user_info",
            AuthCookies::Nonce => "nonce",
            AuthCookies::PkceVerifier => "pkce_verifier",
        }
    }
}

/// The attributes of a cookie to set on a response. Every cookie has path
/// "/", so that it reaches every endpoint including the OIDC callback.
pub struct CookieSpec {
    pub name: String,
    pub value: String,
    pub path: String,
    /// SameSite=Lax.
    pub same_site_lax: bool,
    pub http_only: bool,
    pub secure: bool,
    /// Max-Age=0: the cookie removes a previously set one.
    pub expire_now: bool,
}

/// A session cookie: path "/", SameSite=Lax, HttpOnly.
pub open spec fn is_session_cookie(c: CookieSpec, name: Seq<char>, value: Seq<char>) -> bool {
    c.name@ == name && c.value@ == value && c.path@ == "/"@ && c.same_site_lax && c.http_only && !c.secure
        && !c.expire_now
}

/// A secure session cookie: as a session cookie, and Secure.
pub open spec fn is_secure_cookie(c: CookieSpec, name: Seq<char>, value: Seq<char>) -> bool {
    c.name@ == name && c.value@ == value && c.path@ == "/"@ && c.same_site_lax && c.http_only && c.secure
        && !c.expire_now
}

/// A removal cookie: empty value, path "/", Max-Age=0.
pub open spec fn is_removal_cookie(c: CookieSpec, name: Seq<char>) -> bool {
    c.name@ == name && c.value@ == Seq::<char>::empty() && c.path@ == "/"@ && !c.same_site_lax
        && !c.http_only && !c.secure && c.expire_now
}

/// Builds a session cookie.
pub fn build_session_cookie(name: &str, value: &str) -> (r: CookieSpec)
    ensures
        is_session_cookie(r, name@, value@),
{
    proof {
        reveal_strlit("/");
    }
    CookieSpec {
        name: name.to_string(),
        value: value.to_string(),
        path: "/".to_string(),
        same_site_lax: true,
        http_only: true,
        secure: false,
        expire_now: false,
    }
}

/// Builds a session cookie that also has the Secure flag (for tokens).
pub fn build_secure_cookie(name: &str, value: &str) -> (r: CookieSpec)
    ensures
        is_secure_cookie(r, name@, value@),
{
    CookieSpec {
        name: name.to_string(),
        value: value.to_string(),
        path: "/".to_string(),
        same_site_lax: true,
        http_only: true,
        secure: true,
        expire_now: false,
    }
}

/// Builds a cookie that clears a previously set cookie.
pub fn build_removal_cookie(name: &str) -> (r: CookieSpec)
    ensures
        is_removal_cookie(r, name@),
{
    CookieSpec {
        name: name.to_string(),
        value: String::new(),
        path: "/".to_string(),
        same_site_lax: false,
        http_only: false,
        secure: false,
        expire_now: true,
    }
}

/// The cookies cleared on logout: all six auth cookies, in the order access
/// token, id token, refresh token, user info, nonce, PKCE verifier.
pub fn logout_removal_cookies() -> (r: Vec<CookieSpec>)
    ensures
        r.len() == 6,
        is_removal_cookie(r[0], "access_token"@),
        is_removal_cookie(r[1], "id_token"@),
        is_removal_cookie(r[2], "refresh_token"@),
        is_removal_cookie(r[3], "user_info"@),
        is_removal_cookie(r[4], "nonce"@),
        is_removal_cookie(r[5], "pkce_verifier"@),
{
    let mut v: Vec<CookieSpec> = Vec::new();
    v.push(build_removal_cookie(AuthCookies::AccessToken.name()));
    v.push(build_removal_cookie(AuthCookies::IdToken.name()));
    v.push(build_removal_cookie(AuthCookies::RefreshToken.name()));
    v.push(build_removal_cookie(AuthCookies::UserInfo.name()));
    v.push(build_removal_cookie(AuthCookies::Nonce.name()));
    v.push(build_removal_cookie(AuthCookies::PkceVerifier.name()));
    v
}

/// The cookies set after a successful authorization code exchange: the
/// access token (secure), the ID token (secure) when there is one, the cached
/// user info JSON (session) when there is one, the removal of the single-use
/// nonce and PKCE verifier cookies, and last the refresh token (secure) when
/// there is one.
pub fn auth_callback_cookies(
    access_token: &str,
    id_token: Option<&str>,
    user_info_json: Option<&str>,
    refresh_token: Option<&str>,
) -> (r: Vec<CookieSpec>)
    ensures
        r.len() == 3 + (if id_token is Some { 1int } else { 0 }) + (if user_info_json is Some {
            1int
        } else {
            0
        }) + (if refresh_token is Some { 1int } else { 0 }),
        is_secure_cookie(r[0], "access_token"@, access_token@),
        id_token matches Some(t) ==> is_secure_cookie(r[1], "id_token"@, t@),
        user_info_json matches Some(u) ==> is_session_cookie(
            r[if id_token is Some { 2int } else { 1 }],
            "user_info"@,
            u@,
        ),
        is_removal_cookie(
            r[1 + (if id_token is Some { 1int } else { 0 }) + (if user_info_json is Some { 1int } else { 0 })],
            "nonce"@,
        ),
        is_removal_cookie(
            r[2 + (if id_token is Some { 1int } else { 0 }) + (if user_info_json is Some { 1int } else { 0 })],
            "pkce_verifier"@,
        ),
        refresh_token matches Some(t) ==> is_secure_cookie(r[r.len() - 1], "refresh_token"@, t@),
{
    let mut v: Vec<CookieSpec> = Vec::new();
    v.push(build_secure_cookie(AuthCookies::AccessToken.name(), access_token));
    match id_token {
        Some(t) => v.push(build_secure_cookie(AuthCookies::IdToken.name(), t)),
        None => {},
    }
    match user_info_json {
        Some(u) => v.push(build_session_cookie(AuthCookies::UserInfo.name(), u)),
        None => {},
    }
    v.push(build_removal_cookie(AuthCookies::Nonce.name()));
    v.push(build_removal_cookie(AuthCookies::PkceVerifier.name()));
    match refresh_token {
        Some(t) => v.push(build_secure_cookie(AuthCookies::RefreshToken.name(), t)),
        None => {},
    }
    v
}

/// The failure of cookie authentication: the user is sent to the OIDC
/// provider.
pub enum AuthError {
    NotAuthenticated { issuer_url: String, nonce: String, pkce_verifier: String },
    /// The bearer token was refused by the provider; API clients get 401
    /// and never a redirect.
    InvalidBearerToken,
}

/// The redirect that answers an unauthenticated browser request.
pub struct AuthRedirect {
    pub status: u16,
    pub location: String,
    pub body: String,
    pub cookies: Vec<CookieSpec>,
}

impl AuthError {
    /// The HTTP status of the error: 302 Found for a login redirect, 401
    /// Unauthorized for a refused bearer token.
    pub fn status_code(&self) -> (r: u16)
        ensures
            r == match *self {
                AuthError::NotAuthenticated { .. } => 302u16,
                AuthError::InvalidBearerToken => 401u16,
            },
    {
        match self {
            AuthError::NotAuthenticated { .. } => 302,
            AuthError::InvalidBearerToken => 401,
        }
    }

    /// The response: for a login redirect, status 302, the authorization
    /// URL as location, body "Not authenticated", and session cookies
    /// holding the nonce and the PKCE verifier; for a refused bearer token,
    /// status 401 with body "Invalid or expired bearer token", no location
    /// and no cookies.
    pub fn error_response(&self) -> (r: AuthRedirect)
        ensures
            match *self {
                AuthError::NotAuthenticated { issuer_url, nonce, pkce_verifier } => {
                    &&& r.status == 302
                    &&& r.body@ == "Not authenticated"@
                    &&& r.cookies.len() == 2
                    &&& r.location@ == issuer_url@
                    &&& is_session_cookie(r.cookies[0], "nonce"@, nonce@)
                    &&& is_session_cookie(r.cookies[1], "pkce_verifier"@, pkce_verifier@)
                },
                AuthError::InvalidBearerToken => {
                    &&& r.status == 401
                    &&& r.body@ == "Invalid or expired bearer token"@
                    &&& r.location@.len() == 0
                    &&& r.cookies.len() == 0
                },
            },
    {
        match self {
            AuthError::NotAuthenticated { issuer_url, nonce, pkce_verifier } => {
                let mut cookies: Vec<CookieSpec> = Vec::new();
                cookies.push(build_session_cookie(AuthCookies::Nonce.name(), nonce.as_str()));
                cookies.push(build_session_cookie(AuthCookies::PkceVerifier.name(), pkce_verifier.as_str()));
                AuthRedirect {
                    status: self.status_code(),
                    location: issuer_url.clone(),
                    body: "Not authenticated".to_string(),
                    cookies,
                }
            },
            AuthError::InvalidBearerToken => AuthRedirect {
                status: 401,
                location: String::new(),
                body: "Invalid or expired bearer token".to_string(),
                cookies: Vec::new(),
            },
        }
    }
}

/// How the authentication middleware handles a request.
pub enum AuthRoute {
    /// The request is not subject to authentication.
    PassThrough,
    /// Authenticate with the bearer token (401 on failure).
    Bearer(String),
    /// Authenticate with the access token cookie (redirect on failure).
    Cookie(String),
    /// No credentials: redirect to the OIDC provider.
    Redirect,
}

/// The route of a request: requests under the redirect path, or for which
/// authentication is not required, pass through; otherwise a bearer token
/// takes precedence over the access token cookie; without either the user
/// is redirected to log in.
pub open spec fn auth_route_spec(
    path: Seq<char>,
    redirect_path: Seq<char>,
    should_auth: bool,
    bearer: Option<Seq<char>>,
    access_cookie: Option<Seq<char>>,
) -> AuthRouteKind {
    if starts_with(path, redirect_path) || !should_auth {
        AuthRouteKind::PassThrough
    } else if bearer is Some {
        AuthRouteKind::Bearer(bearer->0)
    } else if access_cookie is Some {
        AuthRouteKind::Cookie(access_cookie->0)
    } else {
        AuthRouteKind::Redirect
    }
}

/// `AuthRoute` in terms of character sequences.
pub enum AuthRouteKind {
    PassThrough,
    Bearer(Seq<char>),
    Cookie(Seq<char>),
    Redirect,
}

/// The kind of a route.
pub open spec fn route_kind(r: AuthRoute) -> AuthRouteKind {
    match r {
        AuthRoute::PassThrough => AuthRouteKind::PassThrough,
        AuthRoute::Bearer(t) => AuthRouteKind::Bearer(t@),
        AuthRoute::Cookie(t) => AuthRouteKind::Cookie(t@),
        AuthRoute::Redirect => AuthRouteKind::Redirect,
    }
}

/// Decides how the authentication middleware handles a request.
pub fn auth_route(
    path: &str,
    redirect_path: &str,
    should_auth: bool,
    bearer: Option<String>,
    access_cookie: Option<String>,
) -> (r: AuthRoute)
    ensures
        route_kind(r) == auth_route_spec(
            path@,
            redirect_path@,
            should_auth,
            opt_string_view(bearer),
            opt_string_view(access_cookie),
        ),
{
    let p = str_to_chars(path);
    if starts_with_str(p.as_slice(), redirect_path) || !should_auth {
        return AuthRoute::PassThrough;
    }
    match bearer {
        Some(t) => AuthRoute::Bearer(t),
        None => match access_cookie {
            Some(c) => AuthRoute::Cookie(c),
            None => AuthRoute::Redirect,
        },
    }
}

/// Lifetime of an entry of the in-memory bearer token cache, in seconds.
pub const BEARER_CACHE_TTL_SECS: u64 = 3600;

/// Default lifetime of a shared bearer token cache entry, in seconds.
pub const DEFAULT_VALKEY_BEARER_TTL_SECS: u64 = 3600;

/// An in-memory cache entry inserted `age_secs` seconds ago is still used.
pub fn bearer_cache_entry_fresh(age_secs: u64) -> (r: bool)
    ensures
        r == (age_secs < BEARER_CACHE_TTL_SECS),
{
    age_secs < BEARER_CACHE_TTL_SECS
}

/// The shared cache key for a hashed bearer token: "bearer:" and the hash.
pub fn bearer_cache_key(token_hash: &str) -> (r: String)
    ensures
        r@ == "bearer:"@ + token_hash@,
{
    let mut v: Vec<char> = Vec::new();
    append_str(&mut v, "bearer:");
    append_str(&mut v, token_hash);
    chars_to_string(v.as_slice())
}

/// The lifetime of a shared bearer cache entry: the configured one, or the
/// default when none is configured.
pub fn valkey_bearer_ttl(configured: Option<u64>) -> (r: u64)
    ensures
        r == match configured {
            Some(t) => t,
            None => DEFAULT_VALKEY_BEARER_TTL_SECS,
        },
{
    match configured {
        Some(t) => t,
        None => DEFAULT_VALKEY_BEARER_TTL_SECS,
    }
}

/// Hashes a bearer token with SHA-256 so raw credentials are never
/// persisted: the lowercase hex text of the digest.
pub fn hash_bearer_token(token: &str) -> (r: String)
    ensures
        r@ == crate::hashing::sha256_hex(token@),
        r@.len() == 64,
        forall|k: int| 0 <= k < 64 ==> crate::hashing::is_lower_hex_char(#[trigger] r@[k]),
{
    crate::hashing::sha256_hex_of(token)
}

/// The PKCE verifier to send in a token exchange: required when PKCE is in
/// use, ignored otherwise.
pub fn require_pkce_verifier(use_pkce: bool, provided: Option<String>) -> (r: Result<Option<String>, String>)
    ensures
        use_pkce && provided is Some ==> r == Ok::<Option<String>, String>(provided),
        use_pkce && provided is None ==> r is Err && r->Err_0@
            == "pkce_verifier is required when PKCE is enabled"@,
        !use_pkce ==> r == Ok::<Option<String>, String>(None),
{
    if use_pkce {
        match provided {
            Some(p) => Ok(Some(p)),
            None => Err("pkce_verifier is required when PKCE is enabled".to_string()),
        }
    } else {
        Ok(None)
    }
}

/// The keys a bearer token is cached under: the in-memory cache uses the
/// token's hash, the shared cache "bearer:" and the hash.
pub struct BearerCacheKeys {
    pub memory_key: String,
    pub shared_key: String,
}

/// `k` are the cache keys of token `t`: the memory key is the 64 lowercase
/// hex digits of the token's SHA-256, the shared key "bearer:" and them.
pub open spec fn bearer_keys_of(k: BearerCacheKeys, t: Seq<char>) -> bool {
    &&& k.memory_key@ == crate::hashing::sha256_hex(t)
    &&& k.memory_key@.len() == 64
    &&& forall|i: int| 0 <= i < 64 ==> crate::hashing::is_lower_hex_char(#[trigger] k.memory_key@[i])
    &&& k.shared_key@ == "bearer:"@ + k.memory_key@
}

/// The cache keys of a bearer token.
pub fn bearer_cache_keys(token: &str) -> (r: BearerCacheKeys)
    ensures
        bearer_keys_of(r, token@),
{
    let h = hash_bearer_token(token);
    let shared = bearer_cache_key(h.as_str());
    BearerCacheKeys { memory_key: h, shared_key: shared }
}

/// Bearer tokens are cached only under their hash: both keys consist of the
/// prefix "bearer:" (shared key only) and the 64 lowercase hex digits of the
/// token's SHA-256, so they are determined by the digest alone.
pub proof fn lemma_bearer_keys_are_hashes(t1: Seq<char>, k1: BearerCacheKeys, t2: Seq<char>, k2: BearerCacheKeys)
    requires
        bearer_keys_of(k1, t1),
        bearer_keys_of(k2, t2),
    ensures
        k1.shared_key@.len() == 71,
        k1.shared_key@.take(7) == "bearer:"@,
        k1.shared_key@.skip(7) == k1.memory_key@,
        forall|i: int| 7 <= i < 71 ==> crate::hashing::is_lower_hex_char(#[trigger] k1.shared_key@[i]),
        crate::hashing::sha256(vstd::utf8::encode_utf8(t1)) == crate::hashing::sha256(
            vstd::utf8::encode_utf8(t2),
        ) ==> k1.memory_key@ == k2.memory_key@ && k1.shared_key@ == k2.shared_key@,
{
    reveal_strlit("bearer:");
    assert(k1.shared_key@.skip(7) =~= k1.memory_key@);
    assert(k1.shared_key@.take(7) =~= "bearer:"@);
    assert forall|i: int| 7 <= i < 71 implies crate::hashing::is_lower_hex_char(#[trigger] k1.shared_key@[i]) by {
        assert(k1.shared_key@[i] == k1.memory_key@[i - 7]);
    }
}

/// What a bearer token the caches did not hold resolves to, from the
/// provider's user information (`None` when the provider refused the
/// token): the user, or a 401.
pub fn bearer_userinfo_outcome(userinfo: Option<CachedUserInfo>) -> (r: Result<CachedUserInfo, AuthError>)
    ensures
        match userinfo {
            Some(i) => r == Ok::<CachedUserInfo, AuthError>(i),
            None => r matches Err(AuthError::InvalidBearerToken),
        },
{
    match userinfo {
        Some(i) => Ok(i),
        None => Err(AuthError::InvalidBearerToken),
    }
}


fn dup_opt_string(o: &Option<String>) -> (r: Option<String>)
    ensures
        r == *o,
{
    match o {
        Some(x) => Some(x.clone()),
        None => None,
    }
}

impl CachedUserInfo {
    /// A copy of the user information.
    pub fn duplicate(&self) -> (r: Self)
        ensures
            r == *self,
    {
        CachedUserInfo {
            sub: dup_opt_string(&self.sub),
            preferred_username: dup_opt_string(&self.preferred_username),
            email: dup_opt_string(&self.email),
            email_verified: self.email_verified,
            name: dup_opt_string(&self.name),
            picture: dup_opt_string(&self.picture),
        }
    }
}

/// Where the authentication of a request stands.
#[derive(PartialEq, Eq, Structural, Clone, Copy)]
pub enum AuthStage {
    /// Nothing was asked yet.
    Start,
    /// Waiting for the in-memory cache.
    Memory,
    /// Waiting for the shared cache.
    Shared,
    /// Waiting for the provider; its answer is cached.
    Provider,
    /// Waiting for the provider; its answer is not cached.
    ProviderOnly,
    /// The request was accepted or refused.
    Done,
}

/// The `user_info` cookie of a cookie-authenticated request.
pub enum UserInfoCookie {
    Absent,
    /// Present but not readable user information.
    Invalid,
    Valid(CachedUserInfo),
}

/// What the authentication of a request learns.
pub enum AuthEvent {
    /// A bearer token authentication begins.
    Start,
    /// A cookie authentication begins, with the request's `user_info` cookie.
    CookieInfo(UserInfoCookie),
    /// The in-memory cache's entry, with its age in seconds.
    Memory(Option<(CachedUserInfo, u64)>),
    /// The shared cache's entry.
    Shared(Option<CachedUserInfo>),
    /// The provider's user information (`None`: the token was refused).
    Provider(Option<CachedUserInfo>),
}

/// What the authentication middleware does next.
pub enum AuthAction {
    /// Read the in-memory cache under this key.
    ReadMemory(String),
    /// Read the shared cache under this key.
    ReadShared(String),
    /// Ask the provider for the token's user information.
    AskProvider,
    /// Write the user information to the in-memory cache under this key.
    WriteMemory(String, CachedUserInfo),
    /// Write the user information to the shared cache under this key, for
    /// this many seconds.
    WriteShared(String, CachedUserInfo, u64),
    /// Attach the user to the request and pass it on.
    Accept(CachedUserInfo),
    /// Answer 401 (`AuthError::InvalidBearerToken`).
    Reject,
    /// Redirect to the provider's login.
    RedirectToLogin,
}

/// The view of an action.
pub enum AuthActionView {
    ReadMemory(Seq<char>),
    ReadShared(Seq<char>),
    AskProvider,
    WriteMemory(Seq<char>, CachedUserInfo),
    WriteShared(Seq<char>, CachedUserInfo, u64),
    Accept(CachedUserInfo),
    Reject,
    RedirectToLogin,
}

/// The view of an action.
pub open spec fn auth_action_view(a: AuthAction) -> AuthActionView {
    match a {
        AuthAction::ReadMemory(k) => AuthActionView::ReadMemory(k@),
        AuthAction::ReadShared(k) => AuthActionView::ReadShared(k@),
        AuthAction::AskProvider => AuthActionView::AskProvider,
        AuthAction::WriteMemory(k, i) => AuthActionView::WriteMemory(k@, i),
        AuthAction::WriteShared(k, i, t) => AuthActionView::WriteShared(k@, i, t),
        AuthAction::Accept(i) => AuthActionView::Accept(i),
        AuthAction::Reject => AuthActionView::Reject,
        AuthAction::RedirectToLogin => AuthActionView::RedirectToLogin,
    }
}

/// The views of actions.
pub open spec fn auth_action_views(v: Seq<AuthAction>) -> Seq<AuthActionView> {
    v.map_values(|a: AuthAction| auth_action_view(a))
}

/// An authentication in progress: by cookie or bearer token, its stage,
/// the token's cache keys and the shared cache lifetime.
pub struct AuthFlowView {
    pub cookie: bool,
    pub stage: AuthStage,
    pub memory_key: Seq<char>,
    pub shared_key: Seq<char>,
    pub shared_ttl: u64,
}

/// The next stage and the actions of an authentication after an event.
/// Bearer token: the in-memory cache is read first and a fresh entry
/// (younger than an hour) accepted; then the shared cache, whose entry is
/// copied to memory; then the provider, whose answer is written to both
/// caches, or the request is refused with 401. Cookie: readable user
/// information in the `user_info` cookie is accepted; an unreadable cookie
/// asks the provider, whose answer is not cached; without the cookie the
/// shared cache is read, then the provider, whose answer is written to
/// the shared cache; a refused token is redirected to log in. Events that
/// do not fit the stage are ignored.
pub open spec fn auth_step_spec(s: AuthFlowView, e: AuthEvent) -> (AuthStage, Seq<AuthActionView>) {
    match s.stage {
        AuthStage::Start => match e {
            AuthEvent::Start => if !s.cookie {
                (AuthStage::Memory, seq![AuthActionView::ReadMemory(s.memory_key)])
            } else {
                (s.stage, seq![])
            },
            AuthEvent::CookieInfo(c) => if s.cookie {
                match c {
                    UserInfoCookie::Valid(i) => (AuthStage::Done, seq![AuthActionView::Accept(i)]),
                    UserInfoCookie::Invalid => (AuthStage::ProviderOnly, seq![AuthActionView::AskProvider]),
                    UserInfoCookie::Absent => (AuthStage::Shared, seq![AuthActionView::ReadShared(s.shared_key)]),
                }
            } else {
                (s.stage, seq![])
            },
            _ => (s.stage, seq![]),
        },
        AuthStage::Memory => match e {
            AuthEvent::Memory(entry) => match entry {
                Some((i, age)) => if age < BEARER_CACHE_TTL_SECS {
                    (AuthStage::Done, seq![AuthActionView::Accept(i)])
                } else {
                    (AuthStage::Shared, seq![AuthActionView::ReadShared(s.shared_key)])
                },
                None => (AuthStage::Shared, seq![AuthActionView::ReadShared(s.shared_key)]),
            },
            _ => (s.stage, seq![]),
        },
        AuthStage::Shared => match e {
            AuthEvent::Shared(hit) => match hit {
                Some(i) => if s.cookie {
                    (AuthStage::Done, seq![AuthActionView::Accept(i)])
                } else {
                    (AuthStage::Done, seq![AuthActionView::WriteMemory(s.memory_key, i), AuthActionView::Accept(i)])
                },
                None => (AuthStage::Provider, seq![AuthActionView::AskProvider]),
            },
            _ => (s.stage, seq![]),
        },
        AuthStage::Provider => match e {
            AuthEvent::Provider(answer) => match answer {
                Some(i) => if s.cookie {
                    (
                        AuthStage::Done,
                        seq![AuthActionView::WriteShared(s.shared_key, i, s.shared_ttl), AuthActionView::Accept(i)],
                    )
                } else {
                    (
                        AuthStage::Done,
                        seq![
                            AuthActionView::WriteMemory(s.memory_key, i),
                            AuthActionView::WriteShared(s.shared_key, i, s.shared_ttl),
                            AuthActionView::Accept(i),
                        ],
                    )
                },
                None => if s.cookie {
                    (AuthStage::Done, seq![AuthActionView::RedirectToLogin])
                } else {
                    (AuthStage::Done, seq![AuthActionView::Reject])
                },
            },
            _ => (s.stage, seq![]),
        },
        AuthStage::ProviderOnly => match e {
            AuthEvent::Provider(answer) => match answer {
                Some(i) => (AuthStage::Done, seq![AuthActionView::Accept(i)]),
                None => (AuthStage::Done, seq![AuthActionView::RedirectToLogin]),
            },
            _ => (s.stage, seq![]),
        },
        AuthStage::Done => (s.stage, seq![]),
    }
}

/// The cache key an action reads or writes, if any.
pub open spec fn action_cache_key(a: AuthActionView) -> Option<Seq<char>> {
    match a {
        AuthActionView::ReadMemory(k) => Some(k),
        AuthActionView::ReadShared(k) => Some(k),
        AuthActionView::WriteMemory(k, _) => Some(k),
        AuthActionView::WriteShared(k, _, _) => Some(k),
        _ => None,
    }
}

/// An authentication of a request.
pub struct AuthFlow {
    cookie: bool,
    stage: AuthStage,
    keys: BearerCacheKeys,
    shared_ttl: u64,
}

impl View for AuthFlow {
    type V = AuthFlowView;

    closed spec fn view(&self) -> AuthFlowView {
        AuthFlowView {
            cookie: self.cookie,
            stage: self.stage,
            memory_key: self.keys.memory_key@,
            shared_key: self.keys.shared_key@,
            shared_ttl: self.shared_ttl,
        }
    }
}

impl AuthFlow {
    /// The authentication of a request by `token`, from the Authorization
    /// header (`cookie` false) or the access token cookie; shared cache
    /// entries are kept `shared_ttl` seconds.
    pub fn new(token: &str, cookie: bool, shared_ttl: u64) -> (r: Self)
        ensures
            r@.cookie == cookie,
            r@.stage == AuthStage::Start,
            r@.shared_ttl == shared_ttl,
            r@.memory_key == crate::hashing::sha256_hex(token@),
            r@.shared_key == "bearer:"@ + crate::hashing::sha256_hex(token@),
    {
        AuthFlow { cookie, stage: AuthStage::Start, keys: bearer_cache_keys(token), shared_ttl }
    }
}

/// Takes one event of an authentication: updates its stage and returns
/// what the middleware does.
pub fn auth_flow_step(flow: &mut AuthFlow, event: AuthEvent) -> (actions: Vec<AuthAction>)
    ensures
        final(flow)@ == (AuthFlowView { stage: auth_step_spec(old(flow)@, event).0, ..old(flow)@ }),
        auth_action_views(actions@) == auth_step_spec(old(flow)@, event).1,
{
    let ghost s = flow@;
    let ghost e = event;
    let mut actions: Vec<AuthAction> = Vec::new();
    match flow.stage {
        AuthStage::Start => match event {
            AuthEvent::Start => {
                if !flow.cookie {
                    flow.stage = AuthStage::Memory;
                    actions.push(AuthAction::ReadMemory(flow.keys.memory_key.clone()));
                }
            },
            AuthEvent::CookieInfo(c) => {
                if flow.cookie {
                    match c {
                        UserInfoCookie::Valid(i) => {
                            flow.stage = AuthStage::Done;
                            actions.push(AuthAction::Accept(i));
                        },
                        UserInfoCookie::Invalid => {
                            flow.stage = AuthStage::ProviderOnly;
                            actions.push(AuthAction::AskProvider);
                        },
                        UserInfoCookie::Absent => {
                            flow.stage = AuthStage::Shared;
                            actions.push(AuthAction::ReadShared(flow.keys.shared_key.clone()));
                        },
                    }
                }
            },
            _ => {},
        },
        AuthStage::Memory => match event {
            AuthEvent::Memory(entry) => {
                match entry {
                    Some((i, age)) => {
                        if age < BEARER_CACHE_TTL_SECS {
                            flow.stage = AuthStage::Done;
                            actions.push(AuthAction::Accept(i));
                        } else {
                            flow.stage = AuthStage::Shared;
                            actions.push(AuthAction::ReadShared(flow.keys.shared_key.clone()));
                        }
                    },
                    None => {
                        flow.stage = AuthStage::Shared;
                        actions.push(AuthAction::ReadShared(flow.keys.shared_key.clone()));
                    },
                }
            },
            _ => {},
        },
        AuthStage::Shared => match event {
            AuthEvent::Shared(hit) => match hit {
                Some(i) => {
                    flow.stage = AuthStage::Done;
                    if !flow.cookie {
                        actions.push(AuthAction::WriteMemory(flow.keys.memory_key.clone(), i.duplicate()));
                    }
                    actions.push(AuthAction::Accept(i));
                },
                None => {
                    flow.stage = AuthStage::Provider;
                    actions.push(AuthAction::AskProvider);
                },
            },
            _ => {},
        },
        AuthStage::Provider => match event {
            AuthEvent::Provider(answer) => {
                flow.stage = AuthStage::Done;
                match answer {
                    Some(i) => {
                        if !flow.cookie {
                            actions.push(AuthAction::WriteMemory(flow.keys.memory_key.clone(), i.duplicate()));
                        }
                        actions.push(AuthAction::WriteShared(flow.keys.shared_key.clone(), i.duplicate(), flow.shared_ttl));
                        actions.push(AuthAction::Accept(i));
                    },
                    None => {
                        if flow.cookie {
                            actions.push(AuthAction::RedirectToLogin);
                        } else {
                            actions.push(AuthAction::Reject);
                        }
                    },
                }
            },
            _ => {},
        },
        AuthStage::ProviderOnly => match event {
            AuthEvent::Provider(answer) => {
                flow.stage = AuthStage::Done;
                match answer {
                    Some(i) => actions.push(AuthAction::Accept(i)),
                    None => actions.push(AuthAction::RedirectToLogin),
                }
            },
            _ => {},
        },
        AuthStage::Done => {},
    }
    assert(auth_action_views(actions@) =~= auth_step_spec(s, e).1);
    actions
}

/// Bearer tokens reach the caches only through their hash: every cache
/// read or write of an authentication by token `t`, at any stage and on
/// any event, uses the key made of the 64 lowercase hex digits of `t`'s
/// SHA-256 (in memory) or "bearer:" followed by them (shared).
pub proof fn lemma_auth_cache_keys_are_hashes(t: Seq<char>, s: AuthFlowView, e: AuthEvent)
    requires
        s.memory_key == crate::hashing::sha256_hex(t),
        s.shared_key == "bearer:"@ + crate::hashing::sha256_hex(t),
    ensures
        forall|i: int|
            0 <= i < auth_step_spec(s, e).1.len() && #[trigger] action_cache_key(auth_step_spec(s, e).1[i])
                is Some ==> action_cache_key(auth_step_spec(s, e).1[i]) == Some(
                crate::hashing::sha256_hex(t),
            ) || action_cache_key(auth_step_spec(s, e).1[i]) == Some("bearer:"@ + crate::hashing::sha256_hex(t)),
{
}

} // verus!
