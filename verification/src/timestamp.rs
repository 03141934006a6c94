//! Instants of the UTC time line, as the API's time filters take them.

use vstd::prelude::*;

verus! {

/// The earliest second that an instant can hold: the first second of the
/// year -262143.
pub const MIN_SECONDS: i64 = -8_334_601_228_800;

/// The latest second that an instant can hold: the last second of the year
/// 262142.
pub const MAX_SECONDS: i64 = 8_210_266_876_799;

/// Whether a count of seconds since 1970-01-01T00:00:00Z and a count of
/// nanoseconds name an instant. The nanoseconds reach a full second or more
/// only inside a leap second, which follows the 59th second of a minute.
pub open spec fn is_instant(secs: int, nanos: int) -> bool {
    &&& MIN_SECONDS <= secs <= MAX_SECONDS
    &&& 0 <= nanos < 2_000_000_000
    &&& nanos >= 1_000_000_000 ==> secs % 60 == 59
}

/// The text of an instant in the form of RFC 3339, in UTC: date, `T`, time
/// of day, a fraction of three, six or nine digits where the nanoseconds are
/// not zero, and `Z`.
pub uninterp spec fn rfc3339(secs: int, nanos: int) -> Seq<char>;

/// Mathematical model of a [`Timestamp`].
pub ghost struct Instant {
    pub secs: int,
    pub nanos: int,
}

/// An instant of the UTC time line.
#[derive(Clone, Copy, Debug)]
pub struct Timestamp {
    secs: i64,
    nanos: u32,
}

impl View for Timestamp {
    type V = Instant;

    closed spec fn view(&self) -> Instant {
        Instant { secs: self.secs as int, nanos: self.nanos as int }
    }
}

/// Asks chrono for the text of an instant: `DateTime::from_timestamp` makes
/// the `DateTime<Utc>`, which is `None` exactly where the numbers name no
/// instant, and `DateTime::to_rfc3339_opts` with `SecondsFormat::AutoSi` and
/// `Z` for the offset writes it. The text depends on the two numbers alone.
#[verifier::external_body]
fn chrono_rfc3339(secs: i64, nanos: u32) -> (r: Option<String>)
    ensures
        r is Some <==> is_instant(secs as int, nanos as int),
        r matches Some(text) ==> text@ == rfc3339(secs as int, nanos as int),
{
    match chrono::DateTime::from_timestamp(secs, nanos) {
        Some(instant) => Some(instant.to_rfc3339_opts(chrono::SecondsFormat::AutoSi, true)),
        None => None,
    }
}

impl Timestamp {
    #[verifier::type_invariant]
    spec fn names_an_instant(self) -> bool {
        is_instant(self.secs as int, self.nanos as int)
    }

    /// The instant `secs` seconds and `nanos` nanoseconds after
    /// 1970-01-01T00:00:00Z, where the two numbers name one.
    pub fn new(secs: i64, nanos: u32) -> (r: Option<Timestamp>)
        ensures
            r is Some <==> is_instant(secs as int, nanos as int),
            r matches Some(t) ==> t@ == (Instant { secs: secs as int, nanos: nanos as int }),
    {
        if secs < MIN_SECONDS || secs > MAX_SECONDS || nanos >= 2_000_000_000 {
            return None;
        }
        if nanos >= 1_000_000_000 && (secs - MIN_SECONDS) % 60 != 59 {
            return None;
        }
        Some(Timestamp { secs, nanos })
    }

    /// Whole seconds since 1970-01-01T00:00:00Z.
    pub fn secs(&self) -> (r: i64)
        ensures
            r == self@.secs,
    {
        self.secs
    }

    /// Nanoseconds since the last whole second.
    pub fn nanos(&self) -> (r: u32)
        ensures
            r == self@.nanos,
    {
        self.nanos
    }

    /// The text of the instant in the form of RFC 3339.
    pub fn to_rfc3339(&self) -> (r: String)
        ensures
            r@ == rfc3339(self@.secs, self@.nanos),
    {
        proof {
            use_type_invariant(self);
        }
        match chrono_rfc3339(self.secs, self.nanos) {
            Some(text) => text,
            None => vstd::pervasive::unreached(),
        }
    }
}

} // verus!
