//! Structured audit events for security-relevant operations, and the
//! events recorded for each kind of operation.
use vstd::prelude::*;
use crate::clock::{current_timestamp, timestamp_text_spec};
use crate::openid::opt_string_view;
use crate::text::{append_chars, append_str, chars_to_string, decimal_i64_chars, decimal_int, join};

verus! {

/// Subject on which audit events are published.
pub const AUDIT_EVENTS_SUBJECT: &'static str = "audit.events";

/// Stream that holds published audit events.
pub const AUDIT_EVENTS_STREAM: &'static str = "AUDIT_EVENTS";

/// Audit event types for security-relevant operations.
pub enum AuditEventType {
    AuthFailed,
    ResourceCreate,
    ResourceRead,
    ResourceUpdate,
    ResourceDelete,
    ChatMessage,
    SearchRequest,
    FileDownload,
    ConfigurationChange,
    MarketplaceGrab,
    UnauthorizedAccess,
    ValidationFailed,
    RateLimitExceeded,
    SystemError,
}

/// Resource types for audit logging.
pub enum ResourceType {
    Collection,
    Dataset,
    Embedder,
    Transform,
    Visualization,
    LlmProvider,
    Session,
}

/// Outcome of the audited action.
pub enum AuditOutcome {
    Success,
    Failure,
    Denied,
    /// The request was allowed despite degraded conditions.
    Allowed,
}

/// The severity at which an audit event is logged.
pub enum AuditLogLevel {
    Info,
    Warn,
}

/// Audit log entry for a security event.
pub struct AuditEvent {
    /// RFC 3339 timestamp.
    pub timestamp: String,
    pub event_type: AuditEventType,
    pub outcome: AuditOutcome,
    /// Hashed user ID.
    pub user: String,
    /// Display name.
    pub user_display: String,
    pub resource_type: Option<ResourceType>,
    pub resource_id: Option<String>,
    pub details: Option<String>,
}

/// `e` is a fresh event of this type, outcome and user, without resource or
/// details.
pub open spec fn is_new_event(
    e: AuditEvent,
    event_type: AuditEventType,
    outcome: AuditOutcome,
    user: Seq<char>,
    user_display: Seq<char>,
) -> bool {
    &&& e.event_type == event_type
    &&& e.outcome == outcome
    &&& e.user@ == user
    &&& e.user_display@ == user_display
    &&& e.resource_type is None
    &&& e.resource_id is None
    &&& e.details is None
}

impl AuditEvent {
    /// Creates an event with the given timestamp.
    pub fn new_at(
        event_type: AuditEventType,
        outcome: AuditOutcome,
        user: &str,
        user_display: &str,
        timestamp: String,
    ) -> (r: Self)
        ensures
            is_new_event(r, event_type, outcome, user@, user_display@),
            r.timestamp == timestamp,
    {
        AuditEvent {
            timestamp,
            event_type,
            outcome,
            user: user.to_string(),
            user_display: user_display.to_string(),
            resource_type: None,
            resource_id: None,
            details: None,
        }
    }

    /// Creates an event stamped with the current time. `user` is the hashed
    /// user ID, `user_display` the username shown in logs.
    pub fn new(event_type: AuditEventType, outcome: AuditOutcome, user: &str, user_display: &str) -> (r: Self)
        ensures
            is_new_event(r, event_type, outcome, user@, user_display@),
            exists|now: Option<(u64, u32)>| r.timestamp@ == timestamp_text_spec(now),
    {
        let timestamp = current_timestamp();
        Self::new_at(event_type, outcome, user, user_display, timestamp)
    }

    /// Adds resource information.
    pub fn with_resource(self, resource_type: ResourceType, resource_id: &str) -> (r: Self)
        ensures
            r.timestamp == self.timestamp,
            r.event_type == self.event_type,
            r.outcome == self.outcome,
            r.user == self.user,
            r.user_display == self.user_display,
            r.resource_type == Some(resource_type),
            opt_string_view(r.resource_id) == Some(resource_id@),
            r.details == self.details,
    {
        let mut e = self;
        e.resource_type = Some(resource_type);
        e.resource_id = Some(resource_id.to_string());
        e
    }

    /// Adds details.
    pub fn with_details(self, details: &str) -> (r: Self)
        ensures
            r.timestamp == self.timestamp,
            r.event_type == self.event_type,
            r.outcome == self.outcome,
            r.user == self.user,
            r.user_display == self.user_display,
            r.resource_type == self.resource_type,
            r.resource_id == self.resource_id,
            opt_string_view(r.details) == Some(details@),
    {
        let mut e = self;
        e.details = Some(details.to_string());
        e
    }

    /// The severity this event is logged at: successes and allowed requests
    /// as information, failures and denials as warnings.
    pub fn log(&self) -> (r: AuditLogLevel)
        ensures
            r is Info <==> (self.outcome is Success || self.outcome is Allowed),
    {
        match self.outcome {
            AuditOutcome::Success | AuditOutcome::Allowed => AuditLogLevel::Info,
            AuditOutcome::Failure | AuditOutcome::Denied => AuditLogLevel::Warn,
        }
    }
}

/// A resource operation event: success, with the resource.
pub open spec fn is_resource_event(
    e: AuditEvent,
    event_type: AuditEventType,
    user: Seq<char>,
    user_display: Seq<char>,
    resource_type: ResourceType,
    resource_id: Seq<char>,
) -> bool {
    &&& e.event_type == event_type
    &&& e.outcome is Success
    &&& e.user@ == user
    &&& e.user_display@ == user_display
    &&& e.resource_type == Some(resource_type)
    &&& opt_string_view(e.resource_id) == Some(resource_id)
    &&& e.details is None
}

fn resource_event(
    event_type: AuditEventType,
    user_id: &str,
    user_display: &str,
    resource_type: ResourceType,
    resource_id: &str,
) -> (r: AuditEvent)
    ensures
        is_resource_event(r, event_type, user_id@, user_display@, resource_type, resource_id@),
{
    AuditEvent::new(event_type, AuditOutcome::Success, user_id, user_display).with_resource(resource_type, resource_id)
}

/// The event of a successful resource creation.
pub fn resource_created(user_id: &str, user_display: &str, resource_type: ResourceType, resource_id: &str) -> (r:
    AuditEvent)
    ensures
        is_resource_event(r, AuditEventType::ResourceCreate, user_id@, user_display@, resource_type, resource_id@),
{
    resource_event(AuditEventType::ResourceCreate, user_id, user_display, resource_type, resource_id)
}

/// The event of a successful resource read.
pub fn resource_read(user_id: &str, user_display: &str, resource_type: ResourceType, resource_id: &str) -> (r:
    AuditEvent)
    ensures
        is_resource_event(r, AuditEventType::ResourceRead, user_id@, user_display@, resource_type, resource_id@),
{
    resource_event(AuditEventType::ResourceRead, user_id, user_display, resource_type, resource_id)
}

/// The event of a successful resource update.
pub fn resource_updated(user_id: &str, user_display: &str, resource_type: ResourceType, resource_id: &str) -> (r:
    AuditEvent)
    ensures
        is_resource_event(r, AuditEventType::ResourceUpdate, user_id@, user_display@, resource_type, resource_id@),
{
    resource_event(AuditEventType::ResourceUpdate, user_id, user_display, resource_type, resource_id)
}

/// The event of a successful resource deletion.
pub fn resource_deleted(user_id: &str, user_display: &str, resource_type: ResourceType, resource_id: &str) -> (r:
    AuditEvent)
    ensures
        is_resource_event(r, AuditEventType::ResourceDelete, user_id@, user_display@, resource_type, resource_id@),
{
    resource_event(AuditEventType::ResourceDelete, user_id, user_display, resource_type, resource_id)
}

/// The event of a successful marketplace grab.
pub fn marketplace_grab(user_id: &str, user_display: &str, resource_type: ResourceType, resource_id: &str) -> (r:
    AuditEvent)
    ensures
        is_resource_event(r, AuditEventType::MarketplaceGrab, user_id@, user_display@, resource_type, resource_id@),
{
    resource_event(AuditEventType::MarketplaceGrab, user_id, user_display, resource_type, resource_id)
}

/// The event of a chat message, on its session.
pub fn chat_message_sent(user_id: &str, user_display: &str, session_id: &str) -> (r: AuditEvent)
    ensures
        is_resource_event(r, AuditEventType::ChatMessage, user_id@, user_display@, ResourceType::Session, session_id@),
{
    resource_event(AuditEventType::ChatMessage, user_id, user_display, ResourceType::Session, session_id)
}

/// `e` records a failed authentication of this user, for this reason.
pub open spec fn is_auth_failed_event(e: AuditEvent, user_id: Seq<char>, user_display: Seq<char>, reason: Seq<char>) -> bool {
    &&& e.event_type is AuthFailed
    &&& e.outcome is Failure
    &&& e.user@ == user_id
    &&& e.user_display@ == user_display
    &&& e.resource_type is None && e.resource_id is None
    &&& opt_string_view(e.details) == Some(reason)
}

/// The event of an authentication failure, with the reason.
pub fn auth_failed(user_id: &str, user_display: &str, reason: &str) -> (r: AuditEvent)
    ensures
        is_auth_failed_event(r, user_id@, user_display@, reason@),
{
    AuditEvent::new(AuditEventType::AuthFailed, AuditOutcome::Failure, user_id, user_display).with_details(reason)
}

/// The event of an unauthorized access attempt, with the resource and reason.
pub fn unauthorized_access(
    user_id: &str,
    user_display: &str,
    resource_type: ResourceType,
    resource_id: &str,
    reason: &str,
) -> (r: AuditEvent)
    ensures
        r.event_type is UnauthorizedAccess,
        r.outcome is Denied,
        r.user@ == user_id@,
        r.user_display@ == user_display@,
        r.resource_type == Some(resource_type),
        opt_string_view(r.resource_id) == Some(resource_id@),
        opt_string_view(r.details) == Some(reason@),
{
    AuditEvent::new(AuditEventType::UnauthorizedAccess, AuditOutcome::Denied, user_id, user_display).with_resource(
        resource_type,
        resource_id,
    ).with_details(reason)
}

/// The event of a validation failure, with details "{field}: {reason}".
pub fn validation_failed(user_id: &str, user_display: &str, field: &str, reason: &str) -> (r: AuditEvent)
    ensures
        r.event_type is ValidationFailed,
        r.outcome is Failure,
        r.user@ == user_id@,
        r.user_display@ == user_display@,
        r.resource_type is None && r.resource_id is None,
        opt_string_view(r.details) == Some(field@ + ": "@ + reason@),
{
    let mut d: Vec<char> = Vec::new();
    append_str(&mut d, field);
    append_str(&mut d, ": ");
    append_str(&mut d, reason);
    let details = chars_to_string(d.as_slice());
    AuditEvent::new(AuditEventType::ValidationFailed, AuditOutcome::Failure, user_id, user_display).with_details(
        details.as_str(),
    )
}

/// The views of owned strings.
pub open spec fn string_views(v: Seq<String>) -> Seq<Seq<char>> {
    v.map_values(|s: String| s@)
}

fn join_strings(parts: &[String], sep: &str) -> (r: Vec<char>)
    ensures
        r@ == join(string_views(parts@), sep@),
{
    let mut out: Vec<char> = Vec::new();
    let mut i: usize = 0;
    while i < parts.len()
        invariant
            i <= parts.len(),
            out@ == join(string_views(parts@).take(i as int), sep@),
        decreases parts.len() - i,
    {
        assert(string_views(parts@).take(i + 1).drop_last() =~= string_views(parts@).take(i as int));
        if i > 0 {
            append_str(&mut out, sep);
        } else {
            assert(string_views(parts@).take(1) =~= seq![parts@[0]@]);
        }
        append_str(&mut out, parts[i].as_str());
        i = i + 1;
    }
    assert(string_views(parts@).take(parts.len() as int) =~= string_views(parts@));
    out
}

/// The event of a search, with details "collections: " and the searched
/// collections joined by ", ".
pub fn search_request(user_id: &str, user_display: &str, collection_ids: &[String]) -> (r: AuditEvent)
    ensures
        r.event_type is SearchRequest,
        r.outcome is Success,
        r.user@ == user_id@,
        r.user_display@ == user_display@,
        r.resource_type is None && r.resource_id is None,
        opt_string_view(r.details) == Some("collections: "@ + join(string_views(collection_ids@), ", "@)),
{
    let mut d: Vec<char> = Vec::new();
    append_str(&mut d, "collections: ");
    let j = join_strings(collection_ids, ", ");
    append_chars(&mut d, j.as_slice());
    let details = chars_to_string(d.as_slice());
    AuditEvent::new(AuditEventType::SearchRequest, AuditOutcome::Success, user_id, user_display).with_details(
        details.as_str(),
    )
}

/// The event of a file download from a collection, with the file name.
pub fn file_downloaded(user_id: &str, user_display: &str, collection_id: i32, filename: &str) -> (r: AuditEvent)
    ensures
        r.event_type is FileDownload,
        r.outcome is Success,
        r.user@ == user_id@,
        r.user_display@ == user_display@,
        r.resource_type == Some(ResourceType::Collection),
        opt_string_view(r.resource_id) == Some(decimal_int(collection_id as int)),
        opt_string_view(r.details) == Some(filename@),
{
    let id = chars_to_string(decimal_i64_chars(collection_id as i64).as_slice());
    AuditEvent::new(AuditEventType::FileDownload, AuditOutcome::Success, user_id, user_display).with_resource(
        ResourceType::Collection,
        id.as_str(),
    ).with_details(filename)
}

/// The event of a configuration change, with details "field: {field}".
pub fn configuration_changed(
    user_id: &str,
    user_display: &str,
    resource_type: ResourceType,
    resource_id: &str,
    field: &str,
) -> (r: AuditEvent)
    ensures
        r.event_type is ConfigurationChange,
        r.outcome is Success,
        r.user@ == user_id@,
        r.user_display@ == user_display@,
        r.resource_type == Some(resource_type),
        opt_string_view(r.resource_id) == Some(resource_id@),
        opt_string_view(r.details) == Some("field: "@ + field@),
{
    let mut d: Vec<char> = Vec::new();
    append_str(&mut d, "field: ");
    append_str(&mut d, field);
    let details = chars_to_string(d.as_slice());
    AuditEvent::new(AuditEventType::ConfigurationChange, AuditOutcome::Success, user_id, user_display).with_resource(
        resource_type,
        resource_id,
    ).with_details(details.as_str())
}

/// The event of a rejected upload file, with details
/// "file: {filename}; reason: {reason}".
pub fn file_validation_failed(
    user_id: &str,
    user_display: &str,
    collection_id: i32,
    filename: &str,
    reason: &str,
) -> (r: AuditEvent)
    ensures
        r.event_type is ValidationFailed,
        r.outcome is Failure,
        r.user@ == user_id@,
        r.user_display@ == user_display@,
        r.resource_type == Some(ResourceType::Collection),
        opt_string_view(r.resource_id) == Some(decimal_int(collection_id as int)),
        opt_string_view(r.details) == Some("file: "@ + filename@ + "; reason: "@ + reason@),
{
    let id = chars_to_string(decimal_i64_chars(collection_id as i64).as_slice());
    let mut d: Vec<char> = Vec::new();
    append_str(&mut d, "file: ");
    append_str(&mut d, filename);
    append_str(&mut d, "; reason: ");
    append_str(&mut d, reason);
    let details = chars_to_string(d.as_slice());
    AuditEvent::new(AuditEventType::ValidationFailed, AuditOutcome::Failure, user_id, user_display).with_resource(
        ResourceType::Collection,
        id.as_str(),
    ).with_details(details.as_str())
}

/// The event of a rejected rate-limited request.
pub fn rate_limit_exceeded(user: &str, details: &str) -> (r: AuditEvent)
    ensures
        r.event_type is RateLimitExceeded,
        r.outcome is Denied,
        r.user@ == user@,
        r.user_display@ == user@,
        r.resource_type is None && r.resource_id is None,
        opt_string_view(r.details) == Some(details@),
{
    AuditEvent::new(AuditEventType::RateLimitExceeded, AuditOutcome::Denied, user, user).with_details(details)
}

/// An event is stored directly in the database only when publishing it
/// failed and a database is available.
pub fn store_directly(published: bool, database_available: bool) -> (r: bool)
    ensures
        r == (!published && database_available),
{
    !published && database_available
}

/// The durable consumer that writes audit events to the database.
pub const AUDIT_CONSUMER_NAME: &'static str = "audit-db-writer";

/// Deliveries of an audit event before the broker gives up on it.
pub const AUDIT_MAX_DELIVER: i64 = 5;

/// Seconds the broker waits for an acknowledgement before redelivering.
pub const AUDIT_ACK_WAIT_SECS: u64 = 30;

/// Seconds audit events are retained in their stream: 30 days.
pub const AUDIT_RETENTION_SECS: u64 = 2592000;

/// What the audit consumer answers the broker for a message.
pub enum MessageDisposition {
    /// Stored: acknowledge.
    Ack,
    /// Not stored: redeliver later.
    Nak,
    /// Not an audit event: never redeliver.
    Term,
}

/// The answer for a received message: malformed messages are terminated,
/// stored events acknowledged, and events that could not be stored are
/// refused so that they are redelivered.
pub fn audit_message_disposition(decoded: bool, stored: bool) -> (r: MessageDisposition)
    ensures
        !decoded ==> r is Term,
        decoded && stored ==> r is Ack,
        decoded && !stored ==> r is Nak,
{
    if !decoded {
        MessageDisposition::Term
    } else if stored {
        MessageDisposition::Ack
    } else {
        MessageDisposition::Nak
    }
}

} // verus!
