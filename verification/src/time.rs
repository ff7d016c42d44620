//! Instants on the UTC time line, as the service's date headers give them.

use vstd::prelude::*;

verus! {

/// A point in time: whole seconds since the Unix epoch in UTC, and the
/// nanoseconds past that second (one thousand million or more only within a
/// leap second).
#[derive(Clone, Copy, Debug, PartialEq, Eq, Structural)]
pub struct Instant {
    pub secs: i64,
    pub nanos: u32,
}

/// The instant that an RFC 2822 date denotes, or `None` where the text is no
/// such date. It stands for what `chrono::DateTime::parse_from_rfc2822`
/// makes of the text.
pub uninterp spec fn rfc2822_instant(text: Seq<char>) -> Option<(i64, u32)>;

/// The instant of [`rfc2822_instant`] as an [`Instant`].
pub open spec fn instant_of(text: Seq<char>) -> Option<Instant> {
    match rfc2822_instant(text) {
        Some(p) => Some(Instant { secs: p.0, nanos: p.1 }),
        None => None,
    }
}

/// Calls `chrono::DateTime::parse_from_rfc2822` and hands back the result's
/// `timestamp()` and `timestamp_subsec_nanos()`. Trusted: that the outcome
/// depends on the text alone.
#[verifier::external_body]
fn rfc2822_parts(text: &str) -> (r: Option<(i64, u32)>)
    ensures
        r == rfc2822_instant(text@),
{
    match chrono::DateTime::parse_from_rfc2822(text) {
        Ok(dt) => Some((dt.timestamp(), dt.timestamp_subsec_nanos())),
        Err(_) => None,
    }
}

/// Calls `chrono::Utc::now` and hands back its `timestamp()` and
/// `timestamp_subsec_nanos()`. Nothing is claimed of the clock.
#[verifier::external_body]
fn clock_parts() -> (r: (i64, u32)) {
    let now = chrono::Utc::now();
    (now.timestamp(), now.timestamp_subsec_nanos())
}

impl Instant {
    /// Reads a date in RFC 2822 format.
    pub fn parse_rfc2822(text: &str) -> (r: Option<Instant>)
        ensures
            r == instant_of(text@),
    {
        match rfc2822_parts(text) {
            Some(p) => Some(Instant { secs: p.0, nanos: p.1 }),
            None => None,
        }
    }

    /// The present moment.
    pub fn now() -> Instant {
        let p = clock_parts();
        Instant { secs: p.0, nanos: p.1 }
    }
}

} // verus!
