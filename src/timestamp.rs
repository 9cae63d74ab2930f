use vstd::prelude::*;

verus! {

/// An instant in UTC: whole seconds since the Unix epoch and the
/// sub-second part in nanoseconds (a leap second shows as `nanos` of
/// one billion or more, as chrono keeps it).
#[derive(Clone, Copy, Debug, PartialEq, Eq, Structural)]
pub struct Timestamp {
    pub seconds: i64,
    pub nanos: u32,
}

/// The RFC 3339 text that chrono writes for an instant, or `None` where
/// chrono cannot represent it.
pub uninterp spec fn rfc3339_text(seconds: i64, nanos: u32) -> Option<Seq<char>>;

/// The instant that chrono reads from an RFC 3339 text, or `None` where the
/// text is malformed.
pub uninterp spec fn rfc3339_instant(text: Seq<char>) -> Option<(i64, u32)>;

/// Relies on chrono::Utc::now, read back through `timestamp` and
/// `timestamp_subsec_nanos`: the current instant, whatever it is.
#[verifier::external_body]
pub(crate) fn now() -> (r: Timestamp) {
    let t = chrono::Utc::now();
    Timestamp { seconds: t.timestamp(), nanos: t.timestamp_subsec_nanos() }
}

/// Relies on chrono::DateTime::from_timestamp and DateTime::to_rfc3339:
/// the instant written as RFC 3339 text, `None` where chrono has no such
/// instant.
#[verifier::external_body]
fn format_rfc3339(seconds: i64, nanos: u32) -> (r: Option<String>)
    ensures
        rfc3339_text(seconds, nanos) == (match r {
            Some(s) => Some(s@),
            None => None::<Seq<char>>,
        }),
{
    chrono::DateTime::from_timestamp(seconds, nanos).map(|d| d.to_rfc3339())
}

/// Relies on chrono::DateTime::parse_from_rfc3339: the instant that the
/// text denotes, in whatever offset it was written, `None` where it is
/// malformed.
#[verifier::external_body]
fn parse_rfc3339(text: &str) -> (r: Option<(i64, u32)>)
    ensures
        r == rfc3339_instant(text@),
{
    chrono::DateTime::parse_from_rfc3339(text).ok().map(|d| (d.timestamp(), d.timestamp_subsec_nanos()))
}

impl Timestamp {
    /// The RFC 3339 form of this instant, `None` where chrono cannot
    /// represent it.
    pub fn to_rfc3339(&self) -> (r: Option<String>)
        ensures
            rfc3339_text(self.seconds, self.nanos) == (match r {
                Some(s) => Some(s@),
                None => None::<Seq<char>>,
            }),
    {
        format_rfc3339(self.seconds, self.nanos)
    }

    /// Reads an RFC 3339 text; `None` where it is malformed.
    pub fn parse_rfc3339(text: &str) -> (r: Option<Timestamp>)
        ensures
            match rfc3339_instant(text@) {
                Some(p) => r == Some(Timestamp { seconds: p.0, nanos: p.1 }),
                None => r is None,
            },
    {
        match parse_rfc3339(text) {
            Some(p) => Some(Timestamp { seconds: p.0, nanos: p.1 }),
            None => None,
        }
    }
}

} // verus!
