//! The wall clock and RFC 3339 rendering of Unix times (through `chrono`).
use vstd::prelude::*;

verus! {

/// The outside type `std::time::SystemTime`, carried opaquely.
#[verifier::external_type_specification]
#[verifier::external_body]
pub struct ExSystemTime(std::time::SystemTime);

/// Calls `std::time::SystemTime::now`. Nothing is claimed of the result:
/// it is the time of the call.
#[verifier::external_body]
pub(crate) fn system_time_now() -> std::time::SystemTime {
    std::time::SystemTime::now()
}

/// Calls `std::time::SystemTime::duration_since` with the Unix epoch, and
/// gives the duration as whole seconds and the nanoseconds beyond them.
/// Claimed: the nanoseconds are below one second. The value depends on the
/// time passed in, of which nothing is known here.
#[verifier::external_body]
pub(crate) fn unix_duration(t: &std::time::SystemTime) -> (r: Option<(u64, u32)>)
    ensures
        r matches Some(d) ==> d.1 < 1_000_000_000,
{
    match t.duration_since(std::time::UNIX_EPOCH) {
        Ok(d) => Some((d.as_secs(), d.subsec_nanos())),
        Err(_) => None,
    }
}

/// Whether `chrono::DateTime::from_timestamp` accepts the Unix time
/// `secs` seconds and `nanos` nanoseconds.
pub uninterp spec fn chrono_timestamp_valid(secs: i64, nanos: u32) -> bool;

/// The RFC 3339 text chrono renders for a valid Unix time.
pub uninterp spec fn rfc3339_text(secs: i64, nanos: u32) -> Seq<char>;

/// Calls `chrono::DateTime::<chrono::Utc>::from_timestamp` and renders the
/// result with `to_rfc3339`. Claimed: a text exactly when the time is
/// representable, and then it is `rfc3339_text` of the arguments.
#[verifier::external_body]
pub(crate) fn format_rfc3339(secs: i64, nanos: u32) -> (r: Option<String>)
    ensures
        r is Some <==> chrono_timestamp_valid(secs, nanos),
        r matches Some(t) ==> t@ == rfc3339_text(secs, nanos),
{
    match chrono::DateTime::<chrono::Utc>::from_timestamp(secs, nanos) {
        Some(dt) => Some(dt.to_rfc3339()),
        None => None,
    }
}

/// The timestamp text of an event: the RFC 3339 rendering of the Unix time
/// when there is one and chrono can represent it, the empty text otherwise.
pub open spec fn timestamp_text_spec(now: Option<(u64, u32)>) -> Seq<char> {
    match now {
        Some(d) => if chrono_timestamp_valid(d.0 as i64, d.1) {
            rfc3339_text(d.0 as i64, d.1)
        } else {
            Seq::<char>::empty()
        },
        None => Seq::<char>::empty(),
    }
}

/// Renders the time elapsed since the Unix epoch as an RFC 3339 timestamp.
pub fn timestamp_text(now: Option<(u64, u32)>) -> (r: String)
    ensures
        r@ == timestamp_text_spec(now),
{
    match now {
        Some((secs, nanos)) => {
            #[verifier::truncate]
            let s = secs as i64;
            match format_rfc3339(s, nanos) {
                Some(t) => t,
                None => String::new(),
            }
        },
        None => String::new(),
    }
}

/// The current time as an RFC 3339 timestamp; empty when the clock is
/// before the Unix epoch. Which time it is, nothing here can say.
pub fn current_timestamp() -> (r: String)
    ensures
        exists|now: Option<(u64, u32)>| r@ == timestamp_text_spec(now),
{
    let now = system_time_now();
    let d = unix_duration(&now);
    timestamp_text(d)
}

} // verus!
