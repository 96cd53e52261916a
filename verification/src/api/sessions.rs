//! The user's login sessions: listing and revocation decisions.
use vstd::prelude::*;

verus! {

/// Session information shown to the user. Times are Unix seconds.
pub struct SessionInfo {
    pub session_id: String,
    pub created_at: i64,
    pub last_activity: i64,
    pub expires_at: i64,
    pub ip_address: Option<String>,
    pub user_agent: Option<String>,
    pub is_current: bool,
}

/// The list of active sessions.
pub struct SessionListResponse {
    pub sessions: Vec<SessionInfo>,
    pub total: usize,
}

impl SessionInfo {
    /// The information of a stored session; it is not marked current.
    pub fn from_session(
        session_id: String,
        created_at: i64,
        last_activity: i64,
        expires_at: i64,
        ip_address: Option<String>,
        user_agent: Option<String>,
    ) -> (r: Self)
        ensures
            r.session_id == session_id,
            r.created_at == created_at,
            r.last_activity == last_activity,
            r.expires_at == expires_at,
            r.ip_address == ip_address,
            r.user_agent == user_agent,
            !r.is_current,
    {
        SessionInfo { session_id, created_at, last_activity, expires_at, ip_address, user_agent, is_current: false }
    }
}

/// The list response: the sessions and their number.
pub fn session_list(sessions: Vec<SessionInfo>) -> (r: SessionListResponse)
    ensures
        r.sessions == sessions,
        r.total == sessions.len(),
{
    let total = sessions.len();
    SessionListResponse { sessions, total }
}

/// What a request to revoke one session does.
pub enum RevokeDecision {
    /// There is no such session (404).
    NotFound,
    /// The session belongs to another user (403).
    Forbidden,
    /// Revoke it.
    Revoke,
}

/// Decides a revocation from the owner of the session, if it exists: only
/// the owner may revoke it.
pub fn revoke_decision(session_owner: Option<&str>, username: &str) -> (r: RevokeDecision)
    ensures
        match session_owner {
            None => r is NotFound,
            Some(o) => if o@ == username@ {
                r is Revoke
            } else {
                r is Forbidden
            },
        },
{
    match session_owner {
        None => RevokeDecision::NotFound,
        Some(o) => {
            let a = crate::text::str_to_chars(o);
            if crate::text::chars_eq_str(a.as_slice(), username) {
                RevokeDecision::Revoke
            } else {
                RevokeDecision::Forbidden
            }
        },
    }
}

} // verus!
