use semantic_explorer_api::openid::{
    auth_callback_cookies, auth_route, bearer_cache_entry_fresh, bearer_cache_key,
    build_removal_cookie, build_secure_cookie, build_session_cookie, extract_bearer_token,
    bearer_cache_keys, bearer_userinfo_outcome, hash_bearer_token, logout_removal_cookies,
    require_pkce_verifier, valkey_bearer_ttl, AuthCookies, AuthError, AuthRoute, CachedUserInfo,
};
use semantic_explorer_api::openid::{auth_flow_step, AuthAction, AuthEvent, AuthFlow, UserInfoCookie};
use semantic_explorer_api::hashing::sha256_hex_of;

#[test]
fn bearer_token_extraction() {
    assert_eq!(extract_bearer_token(Some("Bearer abc")), Some("abc".to_string()));
    assert_eq!(extract_bearer_token(Some("bEaReR xyz")), Some("xyz".to_string()));
    assert_eq!(extract_bearer_token(Some("rawtoken")), Some("rawtoken".to_string()));
    assert_eq!(extract_bearer_token(Some("Bearer ")), Some("Bearer ".to_string()));
    assert_eq!(extract_bearer_token(None), None);
}

#[test]
fn cookie_names() {
    assert_eq!(AuthCookies::AccessToken.name(), "access_token");
    assert_eq!(AuthCookies::IdToken.name(), "id_token");
    assert_eq!(AuthCookies::RefreshToken.name(), "refresh_token");
    assert_eq!(AuthCookies::UserInfo.name(), "user_info");
    assert_eq!(AuthCookies::PkceVerifier.name(), "pkce_verifier");
    assert_eq!(AuthCookies::Nonce.name(), "nonce");
}

#[test]
fn cookie_attributes() {
    let s = build_session_cookie("n", "v");
    assert_eq!((s.name.as_str(), s.value.as_str(), s.path.as_str()), ("n", "v", "/"));
    assert!(s.same_site_lax && s.http_only && !s.secure && !s.expire_now);
    let t = build_secure_cookie("n", "v");
    assert!(t.same_site_lax && t.http_only && t.secure && !t.expire_now);
    let r = build_removal_cookie("n");
    assert_eq!(r.value, "");
    assert_eq!(r.path, "/");
    assert!(r.expire_now && !r.secure);
}

#[test]
fn logout_clears_all_cookies_in_order() {
    let names: Vec<String> = logout_removal_cookies().into_iter().map(|c| c.name).collect();
    assert_eq!(
        names,
        vec!["access_token", "id_token", "refresh_token", "user_info", "nonce", "pkce_verifier"]
    );
}

#[test]
fn callback_cookies_with_and_without_optional_tokens() {
    let all = auth_callback_cookies("at", Some("it"), Some("{}"), Some("rt"));
    let names: Vec<&str> = all.iter().map(|c| c.name.as_str()).collect();
    assert_eq!(names, vec!["access_token", "id_token", "user_info", "nonce", "pkce_verifier", "refresh_token"]);
    assert!(all[0].secure && all[1].secure && !all[2].secure && all[5].secure);
    assert!(all[3].expire_now && all[4].expire_now);
    let min = auth_callback_cookies("at", None, None, None);
    let names: Vec<&str> = min.iter().map(|c| c.name.as_str()).collect();
    assert_eq!(names, vec!["access_token", "nonce", "pkce_verifier"]);
}

#[test]
fn unauthenticated_redirect() {
    let e = AuthError::NotAuthenticated {
        issuer_url: "https://idp/auth?x=1".to_string(),
        nonce: "n1".to_string(),
        pkce_verifier: "p1".to_string(),
    };
    assert_eq!(e.status_code(), 302);
    let r = e.error_response();
    assert_eq!(r.status, 302);
    assert_eq!(r.location, "https://idp/auth?x=1");
    assert_eq!(r.body, "Not authenticated");
    assert_eq!(r.cookies.len(), 2);
    assert_eq!((r.cookies[0].name.as_str(), r.cookies[0].value.as_str()), ("nonce", "n1"));
    assert_eq!((r.cookies[1].name.as_str(), r.cookies[1].value.as_str()), ("pkce_verifier", "p1"));
}

#[test]
fn routing_of_requests() {
    let s = |x: &str| Some(x.to_string());
    assert!(matches!(auth_route("/auth_callback?code=1", "/auth_callback", true, s("b"), None), AuthRoute::PassThrough));
    assert!(matches!(auth_route("/api/x", "/auth_callback", false, s("b"), None), AuthRoute::PassThrough));
    match auth_route("/api/x", "/auth_callback", true, s("b"), s("c")) {
        AuthRoute::Bearer(t) => assert_eq!(t, "b"),
        _ => panic!("expected bearer"),
    }
    match auth_route("/api/x", "/auth_callback", true, None, s("c")) {
        AuthRoute::Cookie(t) => assert_eq!(t, "c"),
        _ => panic!("expected cookie"),
    }
    assert!(matches!(auth_route("/api/x", "/auth_callback", true, None, None), AuthRoute::Redirect));
}

#[test]
fn bearer_cache_rules() {
    assert!(bearer_cache_entry_fresh(0));
    assert!(bearer_cache_entry_fresh(3599));
    assert!(!bearer_cache_entry_fresh(3600));
    assert_eq!(bearer_cache_key("h"), "bearer:h");
    assert_eq!(valkey_bearer_ttl(None), 3600);
    assert_eq!(valkey_bearer_ttl(Some(60)), 60);
    assert_eq!(hash_bearer_token("tok"), sha256_hex_of("tok"));
    assert_eq!(hash_bearer_token("tok").len(), 64);
}

#[test]
fn pkce_verifier_rules() {
    assert_eq!(require_pkce_verifier(true, Some("v".to_string())), Ok(Some("v".to_string())));
    assert_eq!(
        require_pkce_verifier(true, None),
        Err("pkce_verifier is required when PKCE is enabled".to_string())
    );
    assert_eq!(require_pkce_verifier(false, Some("v".to_string())), Ok(None));
}

#[test]
fn cached_user_info_getters() {
    let i = CachedUserInfo {
        sub: None,
        preferred_username: Some("u".to_string()),
        email: None,
        email_verified: None,
        name: None,
        picture: Some("p".to_string()),
    };
    assert_eq!(i.preferred_username(), Some("u"));
    assert_eq!(i.email(), None);
    assert_eq!(i.picture_url(), Some("p"));
}

#[test]
fn refused_bearer_token_is_unauthorized() {
    let e = AuthError::InvalidBearerToken;
    assert_eq!(e.status_code(), 401);
    let r = e.error_response();
    assert_eq!(r.status, 401);
    assert_eq!(r.body, "Invalid or expired bearer token");
    assert_eq!(r.location, "");
    assert!(r.cookies.is_empty());
}

#[test]
fn bearer_userinfo_outcomes() {
    let info = CachedUserInfo {
        sub: Some("s".to_string()),
        preferred_username: None,
        email: None,
        email_verified: None,
        name: None,
        picture: None,
    };
    match bearer_userinfo_outcome(Some(info)) {
        Ok(i) => assert_eq!(i.sub, Some("s".to_string())),
        Err(_) => panic!("expected the user"),
    }
    match bearer_userinfo_outcome(None) {
        Err(e) => assert_eq!(e.status_code(), 401),
        Ok(_) => panic!("expected a refusal"),
    }
}

#[test]
fn bearer_keys_hold_only_the_hash() {
    let token = "secret-token-value";
    let k = bearer_cache_keys(token);
    assert_eq!(k.memory_key, sha256_hex_of(token));
    assert_eq!(k.memory_key.len(), 64);
    assert!(k.memory_key.chars().all(|c| c.is_ascii_digit() || ('a'..='f').contains(&c)));
    assert_eq!(k.shared_key, format!("bearer:{}", k.memory_key));
    assert!(!k.memory_key.contains(token));
    assert!(!k.shared_key.contains(token));
    assert_eq!(
        bearer_cache_keys("abc").memory_key,
        "ba7816bf8f01cfea414140de5dae2223b00361a396177a9cb410ff61f20015ad"
    );
}

fn who(sub: &str) -> CachedUserInfo {
    CachedUserInfo {
        sub: Some(sub.to_string()),
        preferred_username: Some(sub.to_string()),
        email: None,
        email_verified: None,
        name: None,
        picture: None,
    }
}

fn keys_of(actions: &[AuthAction]) -> Vec<String> {
    actions
        .iter()
        .filter_map(|a| match a {
            AuthAction::ReadMemory(k) | AuthAction::ReadShared(k) => Some(k.clone()),
            AuthAction::WriteMemory(k, _) | AuthAction::WriteShared(k, _, _) => Some(k.clone()),
            _ => None,
        })
        .collect()
}

#[test]
fn bearer_flow_through_all_caches() {
    let token = "tok-123";
    let hash = sha256_hex_of(token);
    let shared = format!("bearer:{}", hash);
    let mut flow = AuthFlow::new(token, false, 600);
    let a = auth_flow_step(&mut flow, AuthEvent::Start);
    assert_eq!(keys_of(&a), vec![hash.clone()]);
    assert!(matches!(a[0], AuthAction::ReadMemory(_)));
    let a = auth_flow_step(&mut flow, AuthEvent::Memory(Some((who("old"), 3600))));
    assert!(matches!(&a[0], AuthAction::ReadShared(k) if *k == shared));
    let a = auth_flow_step(&mut flow, AuthEvent::Shared(None));
    assert!(matches!(a[0], AuthAction::AskProvider));
    let a = auth_flow_step(&mut flow, AuthEvent::Provider(Some(who("bob"))));
    assert_eq!(a.len(), 3);
    assert_eq!(keys_of(&a), vec![hash.clone(), shared.clone()]);
    assert!(matches!(&a[1], AuthAction::WriteShared(_, _, 600)));
    assert!(matches!(&a[2], AuthAction::Accept(i) if i.sub.as_deref() == Some("bob")));
    assert!(auth_flow_step(&mut flow, AuthEvent::Start).is_empty());
}

#[test]
fn bearer_flow_hits_and_refusal() {
    let mut flow = AuthFlow::new("t", false, 60);
    auth_flow_step(&mut flow, AuthEvent::Start);
    let a = auth_flow_step(&mut flow, AuthEvent::Memory(Some((who("m"), 3599))));
    assert_eq!(a.len(), 1);
    assert!(matches!(&a[0], AuthAction::Accept(i) if i.sub.as_deref() == Some("m")));

    let mut flow = AuthFlow::new("t", false, 60);
    auth_flow_step(&mut flow, AuthEvent::Start);
    auth_flow_step(&mut flow, AuthEvent::Memory(None));
    let a = auth_flow_step(&mut flow, AuthEvent::Shared(Some(who("s"))));
    assert_eq!(a.len(), 2);
    assert!(matches!(&a[0], AuthAction::WriteMemory(k, _) if *k == sha256_hex_of("t")));

    let mut flow = AuthFlow::new("t", false, 60);
    auth_flow_step(&mut flow, AuthEvent::Start);
    auth_flow_step(&mut flow, AuthEvent::Memory(None));
    auth_flow_step(&mut flow, AuthEvent::Shared(None));
    let a = auth_flow_step(&mut flow, AuthEvent::Provider(None));
    assert_eq!(a.len(), 1);
    assert!(matches!(a[0], AuthAction::Reject));
}

#[test]
fn cookie_flows() {
    let mut flow = AuthFlow::new("c", true, 60);
    let a = auth_flow_step(&mut flow, AuthEvent::CookieInfo(UserInfoCookie::Valid(who("v"))));
    assert!(matches!(&a[0], AuthAction::Accept(i) if i.sub.as_deref() == Some("v")));

    let mut flow = AuthFlow::new("c", true, 60);
    let a = auth_flow_step(&mut flow, AuthEvent::CookieInfo(UserInfoCookie::Invalid));
    assert!(matches!(a[0], AuthAction::AskProvider));
    let a = auth_flow_step(&mut flow, AuthEvent::Provider(Some(who("p"))));
    assert_eq!(a.len(), 1);
    assert!(matches!(a[0], AuthAction::Accept(_)));

    let mut flow = AuthFlow::new("c", true, 60);
    let a = auth_flow_step(&mut flow, AuthEvent::CookieInfo(UserInfoCookie::Absent));
    assert_eq!(keys_of(&a), vec![format!("bearer:{}", sha256_hex_of("c"))]);
    auth_flow_step(&mut flow, AuthEvent::Shared(None));
    let a = auth_flow_step(&mut flow, AuthEvent::Provider(Some(who("q"))));
    assert_eq!(a.len(), 2);
    assert!(matches!(&a[0], AuthAction::WriteShared(k, _, 60) if *k == format!("bearer:{}", sha256_hex_of("c"))));

    let mut flow = AuthFlow::new("c", true, 60);
    auth_flow_step(&mut flow, AuthEvent::CookieInfo(UserInfoCookie::Absent));
    auth_flow_step(&mut flow, AuthEvent::Shared(None));
    let a = auth_flow_step(&mut flow, AuthEvent::Provider(None));
    assert!(matches!(a[0], AuthAction::RedirectToLogin));
    assert!(auth_flow_step(&mut flow, AuthEvent::Start).is_empty());
}
