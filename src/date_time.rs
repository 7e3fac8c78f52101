//! Timestamps as the API sends them: an RFC3339 string, a Unix epoch
//! integer, the string `"null"` for no value, or the string
//! `"0000-00-00 00:00:00"` for "never".
use vstd::prelude::*;
use vstd::string::StringExecFns;
use std::cmp::Ordering;
use crate::rfc3339::{
    format_rfc3339_nanos, parse_rfc3339_nanos, renderable_nanos, rfc3339_instant, rfc3339_text,
    MAX_UNIX_NANOS, MIN_UNIX_NANOS,
};
use crate::text::str_equals;

verus! {

/// Earliest epoch second with an RFC3339 rendering (0000-01-01T00:00:00Z).
pub const MIN_UNIX_SECONDS: i64 = -62_167_219_200;

/// Latest epoch second with an RFC3339 rendering (9999-12-31T23:59:59Z).
pub const MAX_UNIX_SECONDS: i64 = 253_402_300_799;

/// Whether an epoch second can be represented.
pub open spec fn epoch_in_range(n: int) -> bool {
    MIN_UNIX_SECONDS <= n <= MAX_UNIX_SECONDS
}

/// The wire sentinel for "no value".
pub open spec fn null_text() -> Seq<char> {
    "null"@
}

/// The wire sentinel for "never".
pub open spec fn never_text() -> Seq<char> {
    "0000-00-00 00:00:00"@
}

/// How "never" is displayed to people.
pub open spec fn never_display() -> Seq<char> {
    "never"@
}

/// An absolute instant, held in UTC as nanoseconds since the Unix epoch.
#[derive(Clone, Copy, Debug, PartialEq, Eq, Hash, Structural)]
pub struct Timestamp {
    nanos: i128,
}

impl Timestamp {
    #[verifier::type_invariant]
    spec fn inv(self) -> bool {
        renderable_nanos(self.nanos as int)
    }

    /// Nanoseconds since the Unix epoch.
    pub fn unix_nanos(&self) -> (r: i128)
        ensures
            r as int == self@,
            renderable_nanos(r as int),
    {
        proof {
            use_type_invariant(self);
        }
        self.nanos
    }
}

impl View for Timestamp {
    type V = int;

    closed spec fn view(&self) -> int {
        self.nanos as int
    }
}

/// A timestamp field: no value, "never", or an instant.
#[derive(Clone, Copy, Debug, PartialEq, Eq, Hash, Structural)]
pub enum DateTime {
    Absent,
    Indefinite,
    Instant(Timestamp),
}

/// A scalar token as it comes off the wire.
#[derive(Clone, Debug)]
pub enum WireToken {
    Text(String),
    Integer(i64),
    Null,
}

/// Why a timestamp could not be decoded or rendered.
#[derive(Clone, Debug)]
#[non_exhaustive]
pub enum DateTimeError {
    /// The text is neither a sentinel nor a representable RFC3339 instant.
    BadDateTimeString(String),
    /// The epoch second is outside the representable range.
    BadUnixTimestamp(i64),
    /// Only instants have an RFC3339 form.
    NoRfc3339Equivalent,
}

/// `r` is the instant `n` nanoseconds after the Unix epoch.
pub open spec fn is_instant_at(r: Result<DateTime, DateTimeError>, n: int) -> bool {
    r matches Ok(DateTime::Instant(t)) && t@ == n
}

/// `r` is the error for text that is not a timestamp, carrying `s`.
pub open spec fn is_bad_text(r: Result<DateTime, DateTimeError>, s: Seq<char>) -> bool {
    r matches Err(DateTimeError::BadDateTimeString(e)) && e@ == s
}

/// What decoding a non-sentinel text gives: the instant it denotes, when
/// RFC3339 names one that can be rendered back, else the text's error.
pub open spec fn rfc3339_decodes_to(r: Result<DateTime, DateTimeError>, s: Seq<char>) -> bool {
    match rfc3339_instant(s) {
        Some(n) => if renderable_nanos(n as int) {
            is_instant_at(r, n as int)
        } else {
            is_bad_text(r, s)
        },
        None => is_bad_text(r, s),
    }
}

/// What decoding an epoch second gives.
pub open spec fn epoch_decodes_to(r: Result<DateTime, DateTimeError>, n: i64) -> bool {
    if epoch_in_range(n as int) {
        is_instant_at(r, n * 1_000_000_000)
    } else {
        r == Err::<DateTime, DateTimeError>(DateTimeError::BadUnixTimestamp(n))
    }
}

/// What decoding a text token gives.
pub open spec fn text_decodes_to(r: Result<DateTime, DateTimeError>, s: Seq<char>) -> bool {
    if s == null_text() {
        r == Ok::<DateTime, DateTimeError>(DateTime::Absent)
    } else if s == never_text() {
        r == Ok::<DateTime, DateTimeError>(DateTime::Indefinite)
    } else {
        rfc3339_decodes_to(r, s)
    }
}

/// The canonical wire text of a timestamp.
pub open spec fn wire_text(d: DateTime) -> Seq<char> {
    match d {
        DateTime::Absent => null_text(),
        DateTime::Indefinite => never_text(),
        DateTime::Instant(t) => rfc3339_text(t@ as i128),
    }
}

/// The display text of a timestamp.
pub open spec fn display_text(d: DateTime) -> Seq<char> {
    match d {
        DateTime::Absent => null_text(),
        DateTime::Indefinite => never_display(),
        DateTime::Instant(t) => rfc3339_text(t@ as i128),
    }
}

/// The RFC3339 text of a timestamp, which only instants have.
pub open spec fn rfc3339_form(d: DateTime) -> Option<Seq<char>> {
    match d {
        DateTime::Instant(t) => Some(rfc3339_text(t@ as i128)),
        _ => None,
    }
}

/// How two timestamps compare: instants by time, anything else not at all.
pub open spec fn compare_spec(a: DateTime, b: DateTime) -> Option<Ordering> {
    match (a, b) {
        (DateTime::Instant(x), DateTime::Instant(y)) => if x@ < y@ {
            Some(Ordering::Less)
        } else if x@ > y@ {
            Some(Ordering::Greater)
        } else {
            Some(Ordering::Equal)
        },
        _ => None,
    }
}

impl DateTime {
    /// Parses an RFC3339 text, in any offset, into an instant in UTC.
    pub fn from_rfc3339(value: &str) -> (r: Result<DateTime, DateTimeError>)
        ensures
            rfc3339_decodes_to(r, value@),
    {
        match parse_rfc3339_nanos(value) {
            Some(n) => {
                if MIN_UNIX_NANOS <= n && n <= MAX_UNIX_NANOS {
                    Ok(DateTime::Instant(Timestamp { nanos: n }))
                } else {
                    Err(DateTimeError::BadDateTimeString(String::from_str(value)))
                }
            },
            None => Err(DateTimeError::BadDateTimeString(String::from_str(value))),
        }
    }

    /// Reads an integer as seconds since the Unix epoch.
    pub fn from_unix_timestamp(value: i64) -> (r: Result<DateTime, DateTimeError>)
        ensures
            epoch_decodes_to(r, value),
    {
        if MIN_UNIX_SECONDS <= value && value <= MAX_UNIX_SECONDS {
            let n: i128 = (value as i128) * 1_000_000_000;
            Ok(DateTime::Instant(Timestamp { nanos: n }))
        } else {
            Err(DateTimeError::BadUnixTimestamp(value))
        }
    }

    /// The RFC3339 text of an instant; the other two variants have none.
    pub fn to_rfc3339(&self) -> (r: Result<String, DateTimeError>)
        ensures
            match rfc3339_form(*self) {
                Some(text) => r matches Ok(s) && s@ == text,
                None => r matches Err(DateTimeError::NoRfc3339Equivalent),
            },
    {
        match self {
            DateTime::Instant(t) => Ok(format_rfc3339_nanos(t.unix_nanos())),
            _ => Err(DateTimeError::NoRfc3339Equivalent),
        }
    }

    /// Decodes a text token: the two sentinels, else RFC3339.
    pub fn decode_text(value: &str) -> (r: Result<DateTime, DateTimeError>)
        ensures
            text_decodes_to(r, value@),
    {
        if str_equals(value, "null") {
            Ok(DateTime::Absent)
        } else if str_equals(value, "0000-00-00 00:00:00") {
            Ok(DateTime::Indefinite)
        } else {
            DateTime::from_rfc3339(value)
        }
    }

    /// Decodes any wire token: an integer is epoch seconds, a missing value
    /// is `Absent`, a text goes to `decode_text`.
    pub fn decode(token: &WireToken) -> (r: Result<DateTime, DateTimeError>)
        ensures
            match token {
                WireToken::Text(s) => text_decodes_to(r, s@),
                WireToken::Integer(n) => epoch_decodes_to(r, *n),
                WireToken::Null => r == Ok::<DateTime, DateTimeError>(DateTime::Absent),
            },
    {
        match token {
            WireToken::Text(s) => DateTime::decode_text(s.as_str()),
            WireToken::Integer(n) => DateTime::from_unix_timestamp(*n),
            WireToken::Null => Ok(DateTime::Absent),
        }
    }

    /// The canonical wire text; never fails.
    pub fn encode(&self) -> (r: String)
        ensures
            r@ == wire_text(*self),
    {
        match self {
            DateTime::Absent => String::from_str("null"),
            DateTime::Indefinite => String::from_str("0000-00-00 00:00:00"),
            DateTime::Instant(t) => format_rfc3339_nanos(t.unix_nanos()),
        }
    }

    /// The text shown to people: like the wire text, but "never" for
    /// `Indefinite`.
    pub fn to_string(&self) -> (r: String)
        ensures
            r@ == display_text(*self),
    {
        match self {
            DateTime::Absent => String::from_str("null"),
            DateTime::Indefinite => String::from_str("never"),
            DateTime::Instant(t) => format_rfc3339_nanos(t.unix_nanos()),
        }
    }
}

impl PartialOrd for DateTime {
    fn partial_cmp(&self, other: &DateTime) -> (r: Option<Ordering>) {
        match (self, other) {
            (DateTime::Instant(a), DateTime::Instant(b)) => {
                let x = a.unix_nanos();
                let y = b.unix_nanos();
                if x < y {
                    Some(Ordering::Less)
                } else if x > y {
                    Some(Ordering::Greater)
                } else {
                    Some(Ordering::Equal)
                }
            },
            _ => None,
        }
    }
}

impl vstd::std_specs::cmp::PartialOrdSpecImpl for DateTime {
    open spec fn obeys_partial_cmp_spec() -> bool {
        true
    }

    open spec fn partial_cmp_spec(&self, other: &DateTime) -> Option<Ordering> {
        compare_spec(*self, *other)
    }
}

/// Start and end of a period. Nothing ties the two together: the API does
/// not promise that the start comes first.
#[derive(Clone, Copy, Debug, PartialEq, Eq, Structural)]
pub struct Interval {
    pub end: Option<DateTime>,
    pub start: DateTime,
}

/// A text that decodes to an instant encodes back, and renders as RFC3339,
/// as the UTC rendering of the instant that the text denotes.
pub proof fn lemma_instant_round_trip(s: Seq<char>, d: DateTime)
    requires
        text_decodes_to(Ok(d), s),
        d is Instant,
    ensures
        rfc3339_instant(s) is Some,
        wire_text(d) == rfc3339_text(rfc3339_instant(s)->0),
        rfc3339_form(d) == Some(wire_text(d)),
{
    reveal_strlit("null");
    reveal_strlit("0000-00-00 00:00:00");
}

/// The two sentinel texts decode to `Absent` and `Indefinite`, and those
/// encode back to the same texts.
pub proof fn lemma_sentinels(r: Result<DateTime, DateTimeError>, q: Result<DateTime, DateTimeError>)
    requires
        text_decodes_to(r, null_text()),
        text_decodes_to(q, never_text()),
    ensures
        r == Ok::<DateTime, DateTimeError>(DateTime::Absent),
        q == Ok::<DateTime, DateTimeError>(DateTime::Indefinite),
        wire_text(DateTime::Absent) == null_text(),
        wire_text(DateTime::Indefinite) == never_text(),
{
    reveal_strlit("null");
    reveal_strlit("0000-00-00 00:00:00");
    assert(null_text().len() != never_text().len());
}

/// An earlier instant compares as less than a later one; `Absent` and
/// `Indefinite` compare with nothing, themselves included.
pub proof fn lemma_ordering(a: DateTime, b: DateTime)
    ensures
        a matches DateTime::Instant(x) && b matches DateTime::Instant(y) && x@ < y@
            ==> compare_spec(a, b) == Some(Ordering::Less)
            && compare_spec(b, a) == Some(Ordering::Greater),
        !(a is Instant) ==> compare_spec(a, b) is None && compare_spec(b, a) is None,
{
}

/// "Never" is displayed as `never` but written on the wire as the zero
/// date; the two texts differ.
pub proof fn lemma_display_differs_from_wire()
    ensures
        display_text(DateTime::Indefinite) == never_display(),
        wire_text(DateTime::Indefinite) == never_text(),
        display_text(DateTime::Indefinite) != wire_text(DateTime::Indefinite),
{
    reveal_strlit("never");
    reveal_strlit("0000-00-00 00:00:00");
    assert(never_display().len() != never_text().len());
}

} // verus!
