//! UTC instants (`changed_at`) held as Unix seconds plus subsecond nanoseconds,
//! with RFC 3339 text produced and parsed by `chrono`.

use vstd::prelude::*;

verus! {

/// Earliest Unix second `chrono::DateTime<Utc>` can hold (`DateTime::<Utc>::MIN_UTC`).
pub const MIN_UTC_TIMESTAMP: i64 = -8334601228800i64;

/// Latest Unix second `chrono::DateTime<Utc>` can hold (`DateTime::<Utc>::MAX_UTC`).
pub const MAX_UTC_TIMESTAMP: i64 = 8210266876799i64;

/// The `(secs, nanos)` pairs that `chrono::DateTime::from_timestamp` accepts:
/// seconds within the representable range, and a nanosecond part below one
/// second, or below two seconds on the 59th second of a minute (leap second).
pub open spec fn chrono_accepts(secs: int, nanos: int) -> bool {
    &&& MIN_UTC_TIMESTAMP <= secs <= MAX_UTC_TIMESTAMP
    &&& 0 <= nanos < 2_000_000_000
    &&& (nanos < 1_000_000_000 || secs % 60 == 59)
}

/// Strict "later than" on `(unix seconds, subsecond nanos)` pairs, the order
/// `chrono::DateTime<Utc>` compares instants by.
pub open spec fn instant_after(a: (int, int), b: (int, int)) -> bool {
    a.0 > b.0 || (a.0 == b.0 && a.1 > b.1)
}

/// What `chrono::DateTime::<Utc>::to_rfc3339` writes for the instant with
/// these Unix seconds and subsecond nanoseconds.
pub uninterp spec fn rfc3339_text(secs: int, nanos: int) -> Seq<char>;

/// What `chrono::DateTime::parse_from_rfc3339` yields for this text, as the
/// Unix seconds and subsecond nanoseconds of the parsed instant, or `None`
/// when the text is rejected.
pub uninterp spec fn rfc3339_instant(text: Seq<char>) -> Option<(i64, u32)>;

/// Calls `chrono::DateTime::<Utc>::from_timestamp`. Claimed from chrono's
/// source: it returns `Some` exactly on the pairs of [`chrono_accepts`], and
/// the instant it builds reports back the same seconds and nanoseconds.
#[verifier::external_body]
fn utc_from_timestamp(secs: i64, nanos: u32) -> (r: Option<(i64, u32)>)
    ensures
        r is Some <==> chrono_accepts(secs as int, nanos as int),
        r matches Some(p) ==> p == (secs, nanos),
{
    match chrono::DateTime::from_timestamp(secs, nanos) {
        Some(dt) => Some((dt.timestamp(), dt.timestamp_subsec_nanos())),
        None => None,
    }
}

/// Calls `chrono::DateTime::<Utc>::to_rfc3339` on the instant with these
/// Unix seconds and nanoseconds. Claimed: the text is [`rfc3339_text`] of the
/// pair; nothing is claimed of its contents.
#[verifier::external_body]
fn utc_rfc3339(secs: i64, nanos: u32) -> (r: String)
    requires
        chrono_accepts(secs as int, nanos as int),
    ensures
        r@ == rfc3339_text(secs as int, nanos as int),
{
    match chrono::DateTime::from_timestamp(secs, nanos) {
        Some(dt) => dt.to_rfc3339(),
        None => String::new(),
    }
}

/// Calls `chrono::DateTime::parse_from_rfc3339` and reads the parsed instant
/// back as Unix seconds and subsecond nanoseconds. Claimed: the result is
/// [`rfc3339_instant`] of the text.
#[verifier::external_body]
fn parse_rfc3339_utc(text: &str) -> (r: Option<(i64, u32)>)
    ensures
        r == rfc3339_instant(text@),
{
    match chrono::DateTime::parse_from_rfc3339(text) {
        Ok(dt) => Some((dt.timestamp(), dt.timestamp_subsec_nanos())),
        Err(_) => None,
    }
}

/// A UTC instant that `chrono::DateTime<Utc>` can represent.
#[derive(Debug, Clone, Copy, PartialEq, Eq)]
pub struct UtcInstant {
    secs: i64,
    nanos: u32,
}

impl View for UtcInstant {
    type V = (int, int);

    /// `(unix seconds, subsecond nanoseconds)`.
    closed spec fn view(&self) -> (int, int) {
        (self.secs as int, self.nanos as int)
    }
}

impl UtcInstant {
    #[verifier::type_invariant]
    spec fn representable(self) -> bool {
        chrono_accepts(self.secs as int, self.nanos as int)
    }

    /// The instant `secs` seconds (plus `nanos` nanoseconds) after the Unix
    /// epoch, when chrono can represent it.
    pub fn from_unix(secs: i64, nanos: u32) -> (r: Option<UtcInstant>)
        ensures
            r is Some <==> chrono_accepts(secs as int, nanos as int),
            r matches Some(t) ==> t@ == (secs as int, nanos as int),
    {
        match utc_from_timestamp(secs, nanos) {
            Some(p) => Some(UtcInstant { secs: p.0, nanos: p.1 }),
            None => None,
        }
    }

    /// 1970-01-01T00:00:00Z.
    pub fn unix_epoch() -> (r: UtcInstant)
        ensures
            r@ == (0int, 0int),
    {
        UtcInstant { secs: 0, nanos: 0 }
    }

    /// Whole seconds since the Unix epoch.
    pub fn timestamp(&self) -> (r: i64)
        ensures
            r == self@.0,
    {
        self.secs
    }

    /// Nanoseconds past the whole second.
    pub fn subsec_nanos(&self) -> (r: u32)
        ensures
            r == self@.1,
    {
        self.nanos
    }

    /// Is `self` strictly later than `other`?
    pub fn is_after(&self, other: &UtcInstant) -> (r: bool)
        ensures
            r == instant_after(self@, other@),
    {
        self.secs > other.secs || (self.secs == other.secs && self.nanos > other.nanos)
    }

    /// RFC 3339 / ISO 8601 text of the instant, as chrono writes it.
    pub fn to_rfc3339(&self) -> (r: String)
        ensures
            r@ == rfc3339_text(self@.0, self@.1),
    {
        proof {
            use_type_invariant(self);
        }
        utc_rfc3339(self.secs, self.nanos)
    }
}

/// The instant an RFC 3339 text denotes, or the Unix epoch when the text is
/// not RFC 3339 (or names an instant chrono cannot hold).
pub open spec fn rfc3339_or_epoch(text: Seq<char>) -> (int, int) {
    match rfc3339_instant(text) {
        Some(p) => if chrono_accepts(p.0 as int, p.1 as int) {
            (p.0 as int, p.1 as int)
        } else {
            (0int, 0int)
        },
        None => (0int, 0int),
    }
}

/// The instant of a parse result: the parsed instant when chrono can hold it,
/// else the Unix epoch.
pub fn instant_or_epoch(parsed: Option<(i64, u32)>) -> (r: UtcInstant)
    ensures
        r@ == match parsed {
            Some(p) => if chrono_accepts(p.0 as int, p.1 as int) {
                (p.0 as int, p.1 as int)
            } else {
                (0int, 0int)
            },
            None => (0int, 0int),
        },
{
    match parsed {
        Some(p) => match UtcInstant::from_unix(p.0, p.1) {
            Some(t) => t,
            None => UtcInstant::unix_epoch(),
        },
        None => UtcInstant::unix_epoch(),
    }
}

/// Parse RFC 3339 text into a UTC instant, falling back to the Unix epoch.
pub fn parse_rfc3339_or_epoch(text: &str) -> (r: UtcInstant)
    ensures
        r@ == rfc3339_or_epoch(text@),
{
    instant_or_epoch(parse_rfc3339_utc(text))
}

} // verus!
