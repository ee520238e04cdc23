//! Whether a client's copy of a file is still good: the file has not been
//! modified after the date that the client names in `If-Modified-Since`.

use vstd::prelude::*;

verus! {

/// How many nanoseconds a second has.
pub const NANOS_PER_SECOND: i128 = 1_000_000_000;

/// A point in time, as nanoseconds after the Unix epoch; before it, where
/// negative.
#[derive(Debug, Clone, Copy, PartialEq, Eq, Structural)]
pub struct Timestamp {
    pub nanos: i128,
}

impl Timestamp {
    /// The point in time as nanoseconds after the epoch.
    pub open spec fn instant(self) -> int {
        self.nanos as int
    }

    /// The point in time that lies `secs` seconds and `subsec_nanos`
    /// nanoseconds after the epoch.
    pub fn after_epoch(secs: u64, subsec_nanos: u32) -> (t: Timestamp)
        ensures
            t.instant() == secs * NANOS_PER_SECOND + subsec_nanos,
    {
        Timestamp { nanos: (secs as i128) * NANOS_PER_SECOND + (subsec_nanos as i128) }
    }

    /// The point in time that lies `secs` seconds and `subsec_nanos`
    /// nanoseconds before the epoch.
    pub fn before_epoch(secs: u64, subsec_nanos: u32) -> (t: Timestamp)
        ensures
            t.instant() == -(secs * NANOS_PER_SECOND + subsec_nanos),
    {
        Timestamp { nanos: -((secs as i128) * NANOS_PER_SECOND + (subsec_nanos as i128)) }
    }
}

/// The date that `httpdate::parse_http_date` reads from a header value, as
/// whole seconds after the epoch; `None` where it reads none.
pub uninterp spec fn http_date_seconds(text: Seq<char>) -> Option<u64>;

/// `httpdate::parse_http_date`: the date that the text holds in one of the
/// three formats of HTTP, as seconds after the epoch, or `None`. The
/// result is a function of the text.
#[verifier::external_body]
fn parse_http_date(text: &str) -> (date: Option<u64>)
    ensures
        date == http_date_seconds(text@),
{
    httpdate::parse_http_date(text).ok().and_then(
        |time| time.duration_since(std::time::UNIX_EPOCH).ok(),
    ).map(|since| since.as_secs())
}

/// Whether a file modified at `modified` is unchanged for a client whose
/// copy dates from `since` seconds after the epoch: it was modified at that
/// second or before. A client that names no date has no copy.
pub open spec fn unchanged(modified: Timestamp, since: Option<u64>) -> bool {
    match since {
        Some(secs) => modified.instant() <= secs * NANOS_PER_SECOND,
        None => false,
    }
}

/// Whether a file modified at `modified` is unchanged since the date that
/// was read from the request, if one was.
pub fn unchanged_since(modified: Timestamp, since: Option<u64>) -> (b: bool)
    ensures
        b == unchanged(modified, since),
{
    match since {
        Some(secs) => modified.nanos <= (secs as i128) * NANOS_PER_SECOND,
        None => false,
    }
}

/// Whether the request need not be answered with a body: it carries an
/// `If-Modified-Since` header that reads as a date, and the file was not
/// modified after it.
pub fn is_not_modified(if_modified_since: Option<&str>, modified: Timestamp) -> (b: bool)
    ensures
        b == unchanged(
            modified,
            match if_modified_since {
                Some(text) => http_date_seconds(text@),
                None => None,
            },
        ),
{
    match if_modified_since {
        Some(text) => unchanged_since(modified, parse_http_date(text)),
        None => false,
    }
}

} // verus!
