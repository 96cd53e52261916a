//! Readiness: the health of each backing service and the overall status.
use vstd::prelude::*;
use crate::openid::opt_string_view;
use crate::status::NatsConnectionState;

verus! {

/// Health of a component or of the whole service.
pub enum HealthStatus {
    Healthy,
    Unhealthy,
    Degraded,
}

/// The health of one component and the error reported for it. The measured
/// latency is kept by the caller.
pub struct ComponentHealth {
    pub status: HealthStatus,
    pub error: Option<String>,
}

/// The health of the backing services.
pub struct ComponentsHealth {
    pub postgres: ComponentHealth,
    pub qdrant: ComponentHealth,
    pub s3: ComponentHealth,
    pub nats: ComponentHealth,
}

/// The statuses of the four components.
pub open spec fn component_statuses(c: ComponentsHealth) -> Seq<HealthStatus> {
    seq![c.postgres.status, c.qdrant.status, c.s3.status, c.nats.status]
}

/// The overall status: healthy when every component is, unhealthy when
/// some component is, degraded otherwise.
pub open spec fn overall(statuses: Seq<HealthStatus>) -> HealthStatus {
    if forall|i: int| 0 <= i < statuses.len() ==> (#[trigger] statuses[i]) is Healthy {
        HealthStatus::Healthy
    } else if exists|i: int| 0 <= i < statuses.len() && (#[trigger] statuses[i]) is Unhealthy {
        HealthStatus::Unhealthy
    } else {
        HealthStatus::Degraded
    }
}

fn is_healthy(s: &HealthStatus) -> (r: bool)
    ensures
        r == (*s is Healthy),
{
    match s {
        HealthStatus::Healthy => true,
        _ => false,
    }
}

fn is_unhealthy(s: &HealthStatus) -> (r: bool)
    ensures
        r == (*s is Unhealthy),
{
    match s {
        HealthStatus::Unhealthy => true,
        _ => false,
    }
}

/// Marker of the overall health report.
pub struct HealthResponse;

impl HealthResponse {
    /// The overall status of the service from its components' health.
    pub fn overall_status(components: &ComponentsHealth) -> (r: HealthStatus)
        ensures
            r == overall(component_statuses(*components)),
            r is Healthy <==> (components.postgres.status is Healthy && components.qdrant.status is Healthy
                && components.s3.status is Healthy && components.nats.status is Healthy),
            r is Unhealthy <==> (components.postgres.status is Unhealthy || components.qdrant.status is Unhealthy
                || components.s3.status is Unhealthy || components.nats.status is Unhealthy),
    {
        let ghost s = component_statuses(*components);
        let all_healthy = is_healthy(&components.postgres.status) && is_healthy(&components.qdrant.status)
            && is_healthy(&components.s3.status) && is_healthy(&components.nats.status);
        let any_unhealthy = is_unhealthy(&components.postgres.status) || is_unhealthy(
            &components.qdrant.status,
        ) || is_unhealthy(&components.s3.status) || is_unhealthy(&components.nats.status);
        if all_healthy {
            assert forall|i: int| 0 <= i < s.len() implies (#[trigger] s[i]) is Healthy by {}
            HealthStatus::Healthy
        } else if any_unhealthy {
            proof {
                if components.postgres.status is Unhealthy {
                    assert(s[0] is Unhealthy);
                } else if components.qdrant.status is Unhealthy {
                    assert(s[1] is Unhealthy);
                } else if components.s3.status is Unhealthy {
                    assert(s[2] is Unhealthy);
                } else {
                    assert(s[3] is Unhealthy);
                }
            }
            HealthStatus::Unhealthy
        } else {
            assert(!(s[0] is Healthy) || !(s[1] is Healthy) || !(s[2] is Healthy) || !(s[3] is Healthy));
            HealthStatus::Degraded
        }
    }
}

/// Readiness answers 503 exactly when one of the database, the vector
/// database, object storage or the message broker is unhealthy, and reports
/// healthy exactly when all four are.
pub proof fn lemma_readiness_follows_every_component(c: ComponentsHealth)
    ensures
        overall(component_statuses(c)) is Unhealthy <==> (c.postgres.status is Unhealthy || c.qdrant.status
            is Unhealthy || c.s3.status is Unhealthy || c.nats.status is Unhealthy),
        overall(component_statuses(c)) is Healthy <==> (c.postgres.status is Healthy && c.qdrant.status
            is Healthy && c.s3.status is Healthy && c.nats.status is Healthy),
{
    let s = component_statuses(c);
    assert(s.len() == 4);
    assert(s[0] == c.postgres.status && s[1] == c.qdrant.status && s[2] == c.s3.status && s[3] == c.nats.status);
    if c.postgres.status is Healthy && c.qdrant.status is Healthy && c.s3.status is Healthy && c.nats.status is Healthy {
        assert forall|i: int| 0 <= i < s.len() implies (#[trigger] s[i]) is Healthy by {}
    }
    if c.postgres.status is Unhealthy || c.qdrant.status is Unhealthy || c.s3.status is Unhealthy
        || c.nats.status is Unhealthy {
        assert(!(s[0] is Healthy) || !(s[1] is Healthy) || !(s[2] is Healthy) || !(s[3] is Healthy));
        if c.postgres.status is Unhealthy {
            assert(s[0] is Unhealthy);
        } else if c.qdrant.status is Unhealthy {
            assert(s[1] is Unhealthy);
        } else if c.s3.status is Unhealthy {
            assert(s[2] is Unhealthy);
        } else {
            assert(s[3] is Unhealthy);
        }
    }
}

/// A single unhealthy component makes the whole service unhealthy,
/// whatever the others report: taking down any one of them turns readiness
/// to 503.
pub proof fn lemma_one_component_down_is_unready(c: ComponentsHealth, which: int)
    requires
        0 <= which < 4,
        which == 0 ==> c.postgres.status is Unhealthy,
        which == 1 ==> c.qdrant.status is Unhealthy,
        which == 2 ==> c.s3.status is Unhealthy,
        which == 3 ==> c.nats.status is Unhealthy,
    ensures
        overall(component_statuses(c)) is Unhealthy,
{
    lemma_readiness_follows_every_component(c);
}

/// The HTTP status of the readiness response: 503 when unhealthy, 200
/// otherwise.
pub fn readiness_http_status(status: &HealthStatus) -> (r: u16)
    ensures
        r == if *status is Unhealthy {
            503u16
        } else {
            200
        },
{
    match status {
        HealthStatus::Unhealthy => 503,
        _ => 200,
    }
}

/// The health of a component from the outcome of its probe: healthy on
/// success, otherwise unhealthy with the given error text.
pub fn probe_health(ok: bool, failure: &str) -> (r: ComponentHealth)
    ensures
        ok ==> r.status is Healthy && r.error is None,
        !ok ==> r.status is Unhealthy && opt_string_view(r.error) == Some(failure@),
{
    if ok {
        ComponentHealth { status: HealthStatus::Healthy, error: None }
    } else {
        ComponentHealth { status: HealthStatus::Unhealthy, error: Some(failure.to_string()) }
    }
}

/// The health of the database from its probe.
pub fn postgres_health(ok: bool) -> (r: ComponentHealth)
    ensures
        ok ==> r.status is Healthy && r.error is None,
        !ok ==> r.status is Unhealthy && opt_string_view(r.error) == Some("Database connection failed"@),
{
    probe_health(ok, "Database connection failed")
}

/// The health of the vector database from its probe.
pub fn qdrant_health(ok: bool) -> (r: ComponentHealth)
    ensures
        ok ==> r.status is Healthy && r.error is None,
        !ok ==> r.status is Unhealthy && opt_string_view(r.error) == Some("Vector database connection failed"@),
{
    probe_health(ok, "Vector database connection failed")
}

/// The health of object storage from its probe.
pub fn s3_health(ok: bool) -> (r: ComponentHealth)
    ensures
        ok ==> r.status is Healthy && r.error is None,
        !ok ==> r.status is Unhealthy && opt_string_view(r.error) == Some("Object storage connection failed"@),
{
    probe_health(ok, "Object storage connection failed")
}

/// The health of the message broker from its connection state: connected
/// is healthy, disconnected unhealthy, pending degraded.
pub fn nats_health(state: &NatsConnectionState) -> (r: ComponentHealth)
    ensures
        match *state {
            NatsConnectionState::Connected => r.status is Healthy && r.error is None,
            NatsConnectionState::Disconnected => r.status is Unhealthy && opt_string_view(r.error) == Some("NATS disconnected"@),
            NatsConnectionState::Pending => r.status is Degraded && opt_string_view(r.error) == Some("NATS connection pending"@),
        },
{
    match state {
        NatsConnectionState::Connected => ComponentHealth { status: HealthStatus::Healthy, error: None },
        NatsConnectionState::Disconnected => ComponentHealth {
            status: HealthStatus::Unhealthy,
            error: Some("NATS disconnected".to_string()),
        },
        NatsConnectionState::Pending => ComponentHealth {
            status: HealthStatus::Degraded,
            error: Some("NATS connection pending".to_string()),
        },
    }
}

} // verus!
