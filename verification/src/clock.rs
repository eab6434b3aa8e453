use vstd::prelude::*;

verus! {

#[verifier::external_type_specification]
#[verifier::external_body]
pub struct ExInstant(std::time::Instant);

#[verifier::external_type_specification]
#[verifier::external_body]
pub struct ExOffsetDateTime(time::OffsetDateTime);

/// `std::time::Instant::now`; nothing is claimed of the instant.
#[verifier::external_body]
fn instant_now() -> std::time::Instant {
    std::time::Instant::now()
}

/// `later.saturating_duration_since(earlier)`; nothing is claimed of the duration.
#[verifier::external_body]
fn duration_since(later: &std::time::Instant, earlier: &std::time::Instant) -> std::time::Duration {
    later.saturating_duration_since(*earlier)
}

/// `Duration::as_nanos`; nothing is claimed of the value.
#[verifier::external_body]
fn duration_nanos(duration: &std::time::Duration) -> u128 {
    duration.as_nanos()
}

/// The nanoseconds from `earlier` to `later`, zero when `later` comes first.
fn nanos_between(later: &std::time::Instant, earlier: &std::time::Instant) -> u128 {
    duration_nanos(&duration_since(later, earlier))
}

/// `time::OffsetDateTime::now_utc`; nothing is claimed of the value.
#[verifier::external_body]
fn utc_now() -> time::OffsetDateTime {
    time::OffsetDateTime::now_utc()
}

/// `OffsetDateTime::format` with the RFC 3339 description (`None` on a format error);
/// nothing is claimed of the text.
#[verifier::external_body]
fn format_rfc3339(moment: &time::OffsetDateTime) -> Option<String> {
    moment.format(&time::format_description::well_known::Rfc3339).ok()
}

/// The timestamp used when the clock cannot be formatted.
pub const FALLBACK_TIMESTAMP: &'static str = "1970-01-01T00:00:00Z";

/// The current UTC time in RFC 3339 form, or `1970-01-01T00:00:00Z` when it cannot be formatted.
pub fn timestamp_now() -> String {
    match format_rfc3339(&utc_now()) {
        Some(text) => text,
        None => FALLBACK_TIMESTAMP.to_owned(),
    }
}

/// A monotonic clock that counts nanoseconds from the moment it was made.
#[derive(Debug, Clone, Copy)]
pub struct MonotonicClock {
    origin: std::time::Instant,
}

impl MonotonicClock {
    pub fn start() -> Self {
        MonotonicClock { origin: instant_now() }
    }

    /// Nanoseconds since the clock was made.
    pub fn now(&self) -> u128 {
        nanos_between(&instant_now(), &self.origin)
    }
}

} // verus!
