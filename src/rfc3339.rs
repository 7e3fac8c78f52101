//! RFC3339 parsing and rendering, done by the `time` crate.
use vstd::prelude::*;
use time::format_description::well_known::Rfc3339;
use time::OffsetDateTime;

verus! {

/// Nanoseconds since the Unix epoch at 0000-01-01T00:00:00Z, the earliest
/// instant that RFC3339 can render.
pub const MIN_UNIX_NANOS: i128 = -62_167_219_200_000_000_000;

/// Nanoseconds since the Unix epoch at 9999-12-31T23:59:59.999999999Z, the
/// latest instant that RFC3339 can render.
pub const MAX_UNIX_NANOS: i128 = 253_402_300_799_999_999_999;

/// Whether an instant, in nanoseconds since the Unix epoch, has an RFC3339
/// rendering.
pub open spec fn renderable_nanos(n: int) -> bool {
    MIN_UNIX_NANOS <= n <= MAX_UNIX_NANOS
}

/// The instant, in nanoseconds since the Unix epoch, that an RFC3339 text
/// denotes, or `None` where the text is not RFC3339.
pub uninterp spec fn rfc3339_instant(s: Seq<char>) -> Option<i128>;

/// The RFC3339 text, in UTC, of an instant given in nanoseconds since the
/// Unix epoch.
pub uninterp spec fn rfc3339_text(n: i128) -> Seq<char>;

/// Relies on `time::OffsetDateTime::parse` with the `Rfc3339` description:
/// the instant that the text denotes, whatever offset it was written in.
#[verifier::external_body]
pub(crate) fn parse_rfc3339_nanos(s: &str) -> (r: Option<i128>)
    ensures
        r == rfc3339_instant(s@),
{
    match OffsetDateTime::parse(s, &Rfc3339) {
        Ok(d) => Some(d.unix_timestamp_nanos()),
        Err(_) => None,
    }
}

/// Relies on `time::OffsetDateTime::from_unix_timestamp_nanos`, which builds
/// the instant in UTC, and on `OffsetDateTime::format` with `Rfc3339`, which
/// succeeds for every UTC instant in the years 0 to 9999.
#[verifier::external_body]
pub(crate) fn format_rfc3339_nanos(n: i128) -> (r: String)
    requires
        renderable_nanos(n as int),
    ensures
        r@ == rfc3339_text(n),
{
    match OffsetDateTime::from_unix_timestamp_nanos(n) {
        Ok(d) => d.format(&Rfc3339).unwrap_or_default(),
        Err(_) => String::new(),
    }
}

} // verus!
