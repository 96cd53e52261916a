//! The authenticated user of a request and the owner identifiers derived
//! from it.
use vstd::prelude::*;
use crate::audit::{auth_failed, is_auth_failed_event, AuditEvent};
use crate::errors::{ApiError, ErrorBody, unauthorized};
use crate::hashing::{is_lower_hex_char, sha256_hex, sha256_hex_of};
use crate::openid::{Authenticated, CachedUserInfo, opt_string_view};

verus! {

/// Owner information stored with resources: the owner key and the display
/// name.
pub struct OwnerInfo {
    pub owner_id: String,
    pub owner_display_name: String,
}

/// The owner key derived from an OIDC `sub` claim: the lowercase hex
/// SHA-256 of the claim.
pub open spec fn owner_key(sub: Seq<char>) -> Seq<char> {
    sha256_hex(sub)
}

/// Derives a safe, deterministic owner identifier from the OIDC `sub` claim:
/// 64 lowercase hex digits, safe for database owner fields, NATS subjects
/// and S3 key prefixes.
pub fn hash_sub_for_owner(sub: &str) -> (r: String)
    ensures
        r@ == owner_key(sub@),
        r@.len() == 64,
        forall|k: int| 0 <= k < 64 ==> is_lower_hex_char(#[trigger] r@[k]),
{
    sha256_hex_of(sub)
}

/// The authenticated user: `username` is the display name from the
/// `preferred_username` claim; `sub` is the stable subject identifier that
/// owner keys are derived from.
pub struct AuthenticatedUser {
    username: String,
    sub: String,
}

impl AuthenticatedUser {
    /// The stable subject identifier.
    pub closed spec fn sub_spec(&self) -> Seq<char> {
        self.sub@
    }

    /// The display name.
    pub closed spec fn name_spec(&self) -> Seq<char> {
        self.username@
    }

    /// The user from the cached user information of an authenticated
    /// request: fails with Unauthorized when there is no preferred username;
    /// the `sub` claim falls back to the username when the provider omits it.
    pub fn from_user_info(info: &CachedUserInfo) -> (r: Result<AuthenticatedUser, ApiError>)
        ensures
            info.preferred_username is None <==> r is Err,
            r matches Err(e) ==> e is Unauthorized && e->Unauthorized_0@
                == "user has no username in the user info claim"@,
            r matches Ok(u) ==> {
                &&& Some(u.name_spec()) == opt_string_view(info.preferred_username)
                &&& u.sub_spec() == match info.sub {
                    Some(s) => s@,
                    None => u.name_spec(),
                }
            },
    {
        let username = match &info.preferred_username {
            Some(u) => u.clone(),
            None => {
                return Err(ApiError::Unauthorized("user has no username in the user info claim".to_string()));
            },
        };
        let sub = match &info.sub {
            Some(s) => s.clone(),
            None => username.clone(),
        };
        Ok(AuthenticatedUser { username, sub })
    }

    /// The user of a request, from the user information the authentication
    /// middleware attached to it (`None` when the request was not
    /// authenticated). Each failure is recorded as an authentication
    /// failure: for a user without a username as "unknown", answered with
    /// 401; for a request without a user as "anonymous", answered with the
    /// authentication error itself.
    pub fn from_request_user(info: Option<&CachedUserInfo>) -> (r: Result<AuthenticatedUser, UserFailure>)
        ensures
            match info {
                None => {
                    &&& r matches Err(f)
                    &&& f.error is None
                    &&& is_auth_failed_event(
                        f.audit,
                        "anonymous"@,
                        "anonymous"@,
                        "authentication failed - invalid or missing token"@,
                    )
                },
                Some(i) => match i.preferred_username {
                    None => {
                        &&& r matches Err(f)
                        &&& f.error matches Some(ApiError::Unauthorized(m))
                        &&& m@ == "user has no username in the user info claim"@
                        &&& is_auth_failed_event(
                            f.audit,
                            "unknown"@,
                            "unknown"@,
                            "user has no username in the user info claim"@,
                        )
                    },
                    Some(n) => {
                        &&& r matches Ok(u)
                        &&& u.name_spec() == n@
                        &&& u.sub_spec() == match i.sub {
                            Some(s) => s@,
                            None => n@,
                        }
                    },
                },
            },
    {
        match info {
            None => Err(
                UserFailure {
                    error: None,
                    audit: auth_failed("anonymous", "anonymous", "authentication failed - invalid or missing token"),
                },
            ),
            Some(i) => match Self::from_user_info(i) {
                Ok(u) => Ok(u),
                Err(e) => Err(
                    UserFailure {
                        error: Some(e),
                        audit: auth_failed("unknown", "unknown", "user has no username in the user info claim"),
                    },
                ),
            },
        }
    }

    /// Deterministic owner identifier derived from the stable `sub` claim.
    pub fn as_owner(&self) -> (r: String)
        ensures
            r@ == owner_key(self.sub_spec()),
            r@.len() == 64,
    {
        hash_sub_for_owner(self.sub.as_str())
    }

    /// The owner information for database operations.
    pub fn to_owner_info(&self) -> (r: OwnerInfo)
        ensures
            r.owner_id@ == owner_key(self.sub_spec()),
            r.owner_display_name@ == self.name_spec(),
    {
        OwnerInfo { owner_id: self.as_owner(), owner_display_name: self.username.clone() }
    }

    /// The display name.
    pub fn username(&self) -> (r: &String)
        ensures
            r@ == self.name_spec(),
    {
        &self.username
    }
}

/// A request whose user could not be resolved: the error it is answered
/// with (`None`: the authentication error is passed on unchanged) and the
/// audit event recorded.
pub struct UserFailure {
    pub error: Option<ApiError>,
    pub audit: AuditEvent,
}

/// The current user as reported by the API.
pub struct User {
    pub username: String,
    pub email: String,
    pub avatar: Option<String>,
}

/// The username claim of the request's user, or a 401 body.
pub fn extract_username(auth: &Authenticated) -> (r: Result<String, ErrorBody>)
    ensures
        r matches Ok(u) ==> Some(u@) == opt_string_view(auth.user_spec().access.preferred_username),
        r matches Err(e) ==> e.status == 401 && e.message@
            == "user has no username in the user info claim."@,
        r is Err <==> auth.user_spec().access.preferred_username is None,
{
    match auth.user().access.preferred_username() {
        Some(user) => Ok(user.to_string()),
        None => Err(unauthorized("user has no username in the user info claim.")),
    }
}

/// The email claim of the request's user, or a 401 body.
pub fn extract_email(auth: &Authenticated) -> (r: Result<String, ErrorBody>)
    ensures
        r matches Ok(u) ==> Some(u@) == opt_string_view(auth.user_spec().access.email),
        r matches Err(e) ==> e.status == 401 && e.message@ == "user has no email in the user info claim."@,
        r is Err <==> auth.user_spec().access.email is None,
{
    match auth.user().access.email() {
        Some(email) => Ok(email.to_string()),
        None => Err(unauthorized("user has no email in the user info claim.")),
    }
}

/// The picture URL claim of the request's user.
pub fn extract_avatar(auth: &Authenticated) -> (r: Option<String>)
    ensures
        opt_string_view(r) == opt_string_view(auth.user_spec().access.picture),
{
    match auth.user().access.picture_url() {
        Some(url) => Some(url.to_string()),
        None => None,
    }
}

/// The current user: username and email are required (401 otherwise, the
/// username checked first), the avatar is optional.
pub fn extract_user(auth: &Authenticated) -> (r: Result<User, ErrorBody>)
    ensures
        r is Ok <==> auth.user_spec().access.preferred_username is Some && auth.user_spec().access.email
            is Some,
        r matches Ok(u) ==> {
            &&& Some(u.username@) == opt_string_view(auth.user_spec().access.preferred_username)
            &&& Some(u.email@) == opt_string_view(auth.user_spec().access.email)
            &&& opt_string_view(u.avatar) == opt_string_view(auth.user_spec().access.picture)
        },
        r matches Err(e) ==> e.status == 401 && e.message@ == if auth.user_spec().access.preferred_username
            is None {
            "user has no username in the user info claim."@
        } else {
            "user has no email in the user info claim."@
        },
{
    let username = match extract_username(auth) {
        Ok(u) => u,
        Err(e) => return Err(e),
    };
    let email = match extract_email(auth) {
        Ok(e) => e,
        Err(e) => return Err(e),
    };
    let avatar = extract_avatar(auth);
    Ok(User { username, email, avatar })
}

} // verus!
