//! Event timestamps and event identifiers.
//!
//! A timestamp is a UTC instant as whole seconds since the Unix epoch plus a
//! sub-second part in nanoseconds; an event identifier is a 128-bit UUID.

use vstd::prelude::*;

verus! {

/// The first second the calendar library can represent:
/// -262143-01-01T00:00:00Z.
pub const MIN_UTC_SECS: i64 = -8_334_601_228_800;

/// The last second the calendar library can represent:
/// +262142-12-31T23:59:59Z.
pub const MAX_UTC_SECS: i64 = 8_210_266_876_799;

/// A round bound on the seconds of every timestamp, enclosing the calendar
/// library's range.
pub const SECS_BOUND: i64 = 8_400_000_000_000;

/// A UTC instant, within the range the calendar library can represent.
#[derive(Clone, Copy, PartialEq, Eq, Debug)]
pub struct Timestamp {
    /// Whole seconds since 1970-01-01T00:00:00Z.
    secs: i64,
    /// Nanoseconds within the second.
    nanos: u32,
}

/// Whether seconds and nanoseconds form an instant the library holds: one
/// the calendar library can represent.
pub open spec fn instant_in_range(secs: i64, nanos: u32) -> bool {
    utc_representable(secs) && nanos < 1_000_000_000
}

impl Timestamp {
    #[verifier::type_invariant]
    spec fn in_range(self) -> bool {
        instant_in_range(self.secs, self.nanos)
    }

    /// Whole seconds since the epoch.
    pub closed spec fn secs(self) -> i64 {
        self.secs
    }

    /// Nanoseconds within the second.
    pub closed spec fn nanos(self) -> u32 {
        self.nanos
    }

    /// Milliseconds since the epoch.
    pub open spec fn millis(self) -> int {
        self.secs() * 1000 + self.nanos() / 1_000_000
    }

    /// The instant `secs` whole seconds after the epoch.
    pub closed spec fn at_secs(secs: i64) -> Timestamp {
        Timestamp { secs, nanos: 0 }
    }

    /// The parts of `at_secs`.
    pub proof fn lemma_at_secs(secs: i64)
        ensures
            Self::at_secs(secs).secs() == secs,
            Self::at_secs(secs).nanos() == 0,
    {
    }

    /// A timestamp from its parts, when they form a held instant.
    pub fn from_parts(secs: i64, nanos: u32) -> (r: Option<Timestamp>)
        ensures
            r is Some <==> instant_in_range(secs, nanos),
            r matches Some(t) ==> t.secs() == secs && t.nanos() == nanos,
    {
        if MIN_UTC_SECS <= secs && secs <= MAX_UTC_SECS && nanos < 1_000_000_000 {
            Some(Timestamp { secs, nanos })
        } else {
            None
        }
    }

    /// Whole seconds since the epoch.
    pub fn timestamp(&self) -> (r: i64)
        ensures
            r == self.secs(),
            -SECS_BOUND < r < SECS_BOUND,
    {
        proof {
            use_type_invariant(self);
        }
        self.secs
    }

    /// Nanoseconds within the second.
    pub fn subsec_nanos(&self) -> (r: u32)
        ensures
            r == self.nanos(),
    {
        self.nanos
    }

    /// Milliseconds since the epoch (seconds times 1000 plus the whole
    /// milliseconds of the sub-second part).
    pub fn timestamp_millis(&self) -> (r: i64)
        ensures
            r == self.millis(),
    {
        proof {
            use_type_invariant(self);
        }
        self.secs * 1000 + (self.nanos / 1_000_000) as i64
    }

}

/// Whether the calendar library can represent `secs` seconds after the
/// epoch: years -262143 to 262142.
pub open spec fn utc_representable(secs: i64) -> bool {
    MIN_UTC_SECS <= secs <= MAX_UTC_SECS
}

/// Whether the calendar library can represent the instant `secs` whole
/// seconds after the epoch.
///
/// Trusted: calls `chrono::Utc.timestamp_opt(secs, 0).single()` and tells
/// whether it holds an instant. The contract claims that it does exactly
/// for the seconds of chrono's date range (`NaiveDate::MIN` to
/// `NaiveDate::MAX`, years -262143 to 262142), which `from_timestamp`
/// checks.
#[verifier::external_body]
fn chrono_representable(secs: i64) -> (r: bool)
    ensures
        r == utc_representable(secs),
{
    chrono::TimeZone::timestamp_opt(&chrono::Utc, secs, 0).single().is_some()
}

/// The instant `secs` whole seconds after the epoch, when the calendar
/// library represents it.
pub fn timestamp_from_secs(secs: i64) -> (r: Option<Timestamp>)
    ensures
        r is Some <==> utc_representable(secs),
        r matches Some(t) ==> t == Timestamp::at_secs(secs),
{
    if chrono_representable(secs) {
        Some(Timestamp { secs, nanos: 0 })
    } else {
        None
    }
}

/// The RFC 3339 text of an instant, as the calendar library writes it.
pub uninterp spec fn rfc3339_text(secs: i64, nanos: u32) -> Seq<char>;

/// The RFC 3339 text of a timestamp.
///
/// Trusted: calls `chrono::DateTime::from_timestamp` and `to_rfc3339`;
/// every timestamp lies in the calendar library's range, so the instant
/// is always there. The contract names the text as a function of the
/// seconds and nanoseconds.
#[verifier::external_body]
pub(crate) fn to_rfc3339(t: &Timestamp) -> (r: String)
    ensures
        r@ == rfc3339_text(t.secs(), t.nanos()),
{
    match chrono::DateTime::from_timestamp(t.secs, t.nanos) {
        Some(dt) => dt.to_rfc3339(),
        None => String::new(),
    }
}

/// The current time.
///
/// Trusted: calls `chrono::Utc::now()`, which reads the system clock as a
/// non-negative duration since the epoch, with sub-second nanoseconds below
/// one second, and builds it with `DateTime::from_timestamp(..).unwrap()`,
/// so the instant lies in the calendar library's range. Nothing more is
/// promised of the value.
#[verifier::external_body]
pub(crate) fn now_utc() -> (r: Timestamp)
    ensures
        r.secs() >= 0,
        r.nanos() < 1_000_000_000,
{
    let dt = chrono::Utc::now();
    Timestamp { secs: dt.timestamp(), nanos: dt.timestamp_subsec_nanos() }
}

/// A fresh random event identifier.
///
/// Trusted: calls `uuid::Uuid::new_v4()` and returns its 128 bits. The value
/// is random; what every outcome has is the version-4 nibble and the
/// RFC 4122 variant bits, which `new_v4` sets.
#[verifier::external_body]
pub(crate) fn new_event_id() -> (r: u128)
    ensures
        (r >> 76u128) & 0xfu128 == 4,
        (r >> 62u128) & 3u128 == 2,
{
    uuid::Uuid::new_v4().as_u128()
}

/// The lower-case hexadecimal digit of a value below 16.
pub open spec fn hex_digit(n: u128) -> char {
    if n < 10 {
        (n + 48) as char
    } else {
        (n + 87) as char
    }
}

/// Which of the 32 hexadecimal digits stands at position `i` of the
/// hyphenated form (8-4-4-4-12 digits).
pub open spec fn uuid_digit_index(i: int) -> int {
    if i < 8 {
        i
    } else if i < 13 {
        i - 1
    } else if i < 18 {
        i - 2
    } else if i < 23 {
        i - 3
    } else {
        i - 4
    }
}

/// The hyphenated lower-case text form of a UUID: its 128 bits as 32
/// hexadecimal digits, most significant first, in groups of 8, 4, 4, 4
/// and 12 joined by `-`.
pub open spec fn uuid_text(id: u128) -> Seq<char> {
    Seq::new(
        36,
        |i: int|
            if i == 8 || i == 13 || i == 18 || i == 23 {
                '-'
            } else {
                hex_digit((id >> ((4 * (31 - uuid_digit_index(i))) as u128)) & 0xfu128)
            },
    )
}

/// The text form of an event identifier.
///
/// Trusted: calls `uuid::Uuid::from_u128(id).to_string()`, whose `Display`
/// writes the hyphenated lower-case form.
#[verifier::external_body]
pub(crate) fn uuid_to_string(id: u128) -> (r: String)
    ensures
        r@ == uuid_text(id),
{
    uuid::Uuid::from_u128(id).to_string()
}

} // verus!
