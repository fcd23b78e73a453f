use vstd::prelude::*;

verus! {

/// An instant in UTC: whole seconds since the Unix epoch and the nanoseconds
/// past that second (above one billion only inside a leap second).
#[derive(Clone, Copy, Debug, PartialEq, Eq, Structural, PartialOrd, Ord, Hash)]
pub struct Timestamp {
    pub secs: i64,
    pub nanos: u32,
}

/// `a` lies strictly after `b`, ordering by seconds and then nanoseconds.
pub open spec fn later(a: Timestamp, b: Timestamp) -> bool {
    a.secs > b.secs || (a.secs == b.secs && a.nanos > b.nanos)
}

/// The RFC 3339 text (UTC, `Z` suffix, fractional digits as needed) that chrono
/// writes for an instant, or `None` where chrono cannot represent it.
pub uninterp spec fn rfc3339_text(secs: i64, nanos: u32) -> Option<Seq<char>>;

/// The instant, as seconds and nanoseconds, that chrono reads from a text, or
/// `None` where chrono rejects the text.
pub uninterp spec fn rfc3339_instant(text: Seq<char>) -> Option<(i64, u32)>;

impl Timestamp {
    pub fn new(secs: i64, nanos: u32) -> (r: Timestamp)
        ensures
            r.secs == secs,
            r.nanos == nanos,
    {
        Timestamp { secs, nanos }
    }

    /// Whether `self` lies strictly after `other`.
    pub fn is_after(&self, other: &Timestamp) -> (r: bool)
        ensures
            r == later(*self, *other),
    {
        self.secs > other.secs || (self.secs == other.secs && self.nanos > other.nanos)
    }

    /// The RFC 3339 text of this instant, or `None` where it is out of chrono's range.
    pub fn to_rfc3339(&self) -> (r: Option<String>)
        ensures
            r matches Some(s) ==> rfc3339_text(self.secs, self.nanos) == Some(s@),
            r is None ==> rfc3339_text(self.secs, self.nanos) is None,
    {
        format_rfc3339(self.secs, self.nanos)
    }

    /// Reads an RFC 3339 text (any offset) as an instant in UTC.
    pub fn parse_rfc3339(text: &str) -> (r: Option<Timestamp>)
        ensures
            r matches Some(t) ==> rfc3339_instant(text@) == Some((t.secs, t.nanos)),
            r is None ==> rfc3339_instant(text@) is None,
    {
        match parse_instant(text) {
            Some((secs, nanos)) => Some(Timestamp { secs, nanos }),
            None => None,
        }
    }
}

/// Relies on chrono's `DateTime::from_timestamp` followed by
/// `to_rfc3339_opts(SecondsFormat::AutoSi, true)`, the form chrono's own
/// serialisation uses.
#[verifier::external_body]
fn format_rfc3339(secs: i64, nanos: u32) -> (r: Option<String>)
    ensures
        r matches Some(s) ==> rfc3339_text(secs, nanos) == Some(s@),
        r is None ==> rfc3339_text(secs, nanos) is None,
{
    chrono::DateTime::from_timestamp(secs, nanos).map(
        |d| d.to_rfc3339_opts(chrono::SecondsFormat::AutoSi, true),
    )
}

/// Relies on chrono's `FromStr` for `DateTime<Utc>` (the parser chrono's own
/// deserialisation uses), then `timestamp` and `timestamp_subsec_nanos`.
#[verifier::external_body]
fn parse_instant(text: &str) -> (r: Option<(i64, u32)>)
    ensures
        r == rfc3339_instant(text@),
{
    text.parse::<chrono::DateTime<chrono::Utc>>().ok().map(
        |d| (d.timestamp(), d.timestamp_subsec_nanos()),
    )
}

} // verus!
