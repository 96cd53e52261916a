use semantic_explorer_api::auth::{
    extract_avatar, extract_email, extract_user, extract_username, hash_sub_for_owner,
    AuthenticatedUser,
};
use semantic_explorer_api::audit::{AuditEventType, AuditOutcome};
use semantic_explorer_api::errors::ApiError;
use semantic_explorer_api::hashing::{hex_encode, sha256_hex_of};
use semantic_explorer_api::openid::{
    self, Authenticated, CachedUserInfo,
};

fn info(username: Option<&str>, email: Option<&str>, picture: Option<&str>, sub: Option<&str>) -> CachedUserInfo {
    CachedUserInfo {
        sub: sub.map(|s| s.to_string()),
        preferred_username: username.map(|s| s.to_string()),
        email: email.map(|s| s.to_string()),
        email_verified: Some(true),
        name: None,
        picture: picture.map(|s| s.to_string()),
    }
}

fn authenticated(i: CachedUserInfo) -> Authenticated {
    Authenticated::new(openid::AuthenticatedUser { access: i })
}

#[test]
fn sha256_known_digests() {
    assert_eq!(
        sha256_hex_of("abc"),
        "ba7816bf8f01cfea414140de5dae2223b00361a396177a9cb410ff61f20015ad"
    );
    assert_eq!(
        sha256_hex_of(""),
        "e3b0c44298fc1c149afbf4c8996fb92427ae41e4649b934ca495991b7852b855"
    );
}

#[test]
fn hex_encoding_is_lowercase_two_digits_per_byte() {
    let v: String = hex_encode(&[0x00, 0x0f, 0xa0, 0xff]).into_iter().collect();
    assert_eq!(v, "000fa0ff");
}

#[test]
fn owner_key_is_hex_digest_of_sub() {
    let k = hash_sub_for_owner("user-123");
    assert_eq!(k.len(), 64);
    assert!(k.chars().all(|c| c.is_ascii_hexdigit() && !c.is_ascii_uppercase()));
    assert_eq!(k, sha256_hex_of("user-123"));
    assert_ne!(k, hash_sub_for_owner("user-124"));
}

#[test]
fn authenticated_user_from_claims() {
    let u = AuthenticatedUser::from_user_info(&info(Some("alice"), None, None, Some("sub-1"))).ok().unwrap();
    assert_eq!(u.username(), "alice");
    assert_eq!(u.as_owner(), hash_sub_for_owner("sub-1"));
    let o = u.to_owner_info();
    assert_eq!(o.owner_id, hash_sub_for_owner("sub-1"));
    assert_eq!(o.owner_display_name, "alice");
}

#[test]
fn authenticated_user_sub_falls_back_to_username() {
    let u = AuthenticatedUser::from_user_info(&info(Some("bob"), None, None, None)).ok().unwrap();
    assert_eq!(u.as_owner(), hash_sub_for_owner("bob"));
}

#[test]
fn authenticated_user_needs_username() {
    let e = AuthenticatedUser::from_user_info(&info(None, None, None, Some("s"))).err().unwrap();
    let body = e.error_response();
    assert_eq!(body.status, 401);
    assert_eq!(body.message, "user has no username in the user info claim");
}

#[test]
fn extract_claims() {
    let auth = authenticated(info(Some("carol"), Some("c@x.org"), Some("http://p"), None));
    assert_eq!(extract_username(&auth).ok().unwrap(), "carol");
    assert_eq!(extract_email(&auth).ok().unwrap(), "c@x.org");
    assert_eq!(extract_avatar(&auth), Some("http://p".to_string()));
    let user = extract_user(&auth).ok().unwrap();
    assert_eq!(user.username, "carol");
    assert_eq!(user.email, "c@x.org");
    assert_eq!(user.avatar, Some("http://p".to_string()));
}

#[test]
fn extract_user_reports_missing_claims() {
    let no_name = authenticated(info(None, None, None, None));
    let e = extract_user(&no_name).err().unwrap();
    assert_eq!(e.status, 401);
    assert_eq!(e.error, "Unauthorized");
    assert_eq!(e.message, "user has no username in the user info claim.");
    let no_email = authenticated(info(Some("d"), None, None, None));
    let e2 = extract_user(&no_email).err().unwrap();
    assert_eq!(e2.message, "user has no email in the user info claim.");
    assert_eq!(extract_email(&no_email).err().unwrap().status, 401);
    assert_eq!(extract_avatar(&no_email), None);
}

#[test]
fn request_user_failures_are_audited() {
    let f = match AuthenticatedUser::from_request_user(None) {
        Err(f) => f,
        Ok(_) => panic!("expected a failure"),
    };
    assert!(f.error.is_none());
    assert!(matches!(f.audit.event_type, AuditEventType::AuthFailed));
    assert!(matches!(f.audit.outcome, AuditOutcome::Failure));
    assert_eq!(f.audit.user, "anonymous");
    assert_eq!(f.audit.user_display, "anonymous");
    assert_eq!(f.audit.details.as_deref(), Some("authentication failed - invalid or missing token"));

    let nameless = info(None, Some("a@b.c"), None, Some("s1"));
    let f = match AuthenticatedUser::from_request_user(Some(&nameless)) {
        Err(f) => f,
        Ok(_) => panic!("expected a failure"),
    };
    assert!(matches!(&f.error, Some(ApiError::Unauthorized(m)) if m.as_str() == "user has no username in the user info claim"));
    assert_eq!(f.audit.user, "unknown");
    assert_eq!(f.audit.user_display, "unknown");
    assert_eq!(f.audit.details.as_deref(), Some("user has no username in the user info claim"));

    let named = info(Some("alice"), None, None, None);
    match AuthenticatedUser::from_request_user(Some(&named)) {
        Ok(u) => {
            assert_eq!(u.username(), "alice");
            assert_eq!(u.as_owner(), hash_sub_for_owner("alice"));
        }
        Err(_) => panic!("expected the user"),
    }
}
