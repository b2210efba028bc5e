use vstd::prelude::*;

verus! {

/// The instant, in milliseconds since the epoch, that chrono reads from an
/// RFC 3339 date-time string, or `None` where it does not parse.
pub uninterp spec fn rfc3339_instant(s: Seq<char>) -> Option<i64>;

/// The instant, in milliseconds since the epoch, that chrono reads from a
/// date-time string without offset in the given format, taken as UTC, or
/// `None` where it does not parse.
pub uninterp spec fn naive_utc_instant(s: Seq<char>, fmt: Seq<char>) -> Option<i64>;

/// Relies on chrono::DateTime::parse_from_rfc3339 and
/// DateTime::timestamp_millis: the parsed instant, or `None` on a parse error.
#[verifier::external_body]
fn parse_rfc3339_millis(s: &str) -> (r: Option<i64>)
    ensures
        r == rfc3339_instant(s@),
{
    match chrono::DateTime::parse_from_rfc3339(s) {
        Ok(dt) => Some(dt.timestamp_millis()),
        Err(_) => None,
    }
}

/// Relies on chrono::NaiveDateTime::parse_from_str, NaiveDateTime::and_utc and
/// DateTime::timestamp_millis: the parsed instant read as UTC, or `None` on a
/// parse error.
#[verifier::external_body]
fn parse_naive_utc_millis(s: &str, fmt: &str) -> (r: Option<i64>)
    ensures
        r == naive_utc_instant(s@, fmt@),
{
    match chrono::NaiveDateTime::parse_from_str(s, fmt) {
        Ok(naive) => Some(naive.and_utc().timestamp_millis()),
        Err(_) => None,
    }
}

/// Layout accepted for a date-time without offset.
pub const NAIVE_FORMAT: &'static str = "%Y-%m-%dT%H:%M:%S";

/// Bound used for a summary window whose other end is given.
pub const EPOCH_START: &'static str = "1970-01-01T00:00:00Z";

/// A date-time read as RFC 3339 first, else as a UTC date-time without offset.
pub open spec fn instant_of(s: Seq<char>) -> Option<i64> {
    if rfc3339_instant(s) is Some {
        rfc3339_instant(s)
    } else {
        naive_utc_instant(s, NAIVE_FORMAT@)
    }
}

/// Milliseconds since the epoch of a date-time string; `None` where it is
/// neither RFC 3339 nor `YYYY-MM-DDTHH:MM:SS`.
pub fn date_to_ts(date: &str) -> (r: Option<i64>)
    ensures
        r == instant_of(date@),
{
    let with_offset = parse_rfc3339_millis(date);
    if with_offset.is_some() {
        with_offset
    } else {
        parse_naive_utc_millis(date, NAIVE_FORMAT)
    }
}

/// Bounds of a summary query, as the caller wrote them.
#[derive(Clone, Debug)]
pub struct PaymentsSummaryFilter {
    pub from: Option<String>,
    pub to: Option<String>,
}

/// What a summary query asks of the ledger.
#[derive(Clone, Copy, Debug, PartialEq, Eq)]
pub enum SummaryQuery {
    /// Neither bound given: the totals are zero.
    Nothing,
    /// Payments with `from_ms <= timestamp < to_ms`.
    Range { from_ms: i64, to_ms: i64 },
    /// A bound that is not a date-time.
    BadDate,
}

pub open spec fn bound_text(b: Option<String>) -> Seq<char> {
    match b {
        Some(s) => s@,
        None => EPOCH_START@,
    }
}

pub open spec fn range_of(from_ms: Option<i64>, to_ms: Option<i64>) -> SummaryQuery {
    match (from_ms, to_ms) {
        (Some(from_ms), Some(to_ms)) => SummaryQuery::Range { from_ms, to_ms },
        _ => SummaryQuery::BadDate,
    }
}

pub open spec fn summary_query_spec(f: PaymentsSummaryFilter) -> SummaryQuery {
    if f.from is None && f.to is None {
        SummaryQuery::Nothing
    } else {
        range_of(instant_of(bound_text(f.from)), instant_of(bound_text(f.to)))
    }
}

impl SummaryQuery {
    /// The window between two parsed bounds; a bound that did not parse
    /// makes the query invalid.
    pub fn from_bounds(from_ms: Option<i64>, to_ms: Option<i64>) -> (r: SummaryQuery)
        ensures
            r == range_of(from_ms, to_ms),
    {
        match (from_ms, to_ms) {
            (Some(from_ms), Some(to_ms)) => SummaryQuery::Range { from_ms, to_ms },
            _ => SummaryQuery::BadDate,
        }
    }
}

fn bound_ms(b: &Option<String>) -> (r: Option<i64>)
    ensures
        r == instant_of(bound_text(*b)),
{
    match b {
        Some(s) => date_to_ts(s.as_str()),
        None => date_to_ts(EPOCH_START),
    }
}

impl PaymentsSummaryFilter {
    /// The ledger window this filter asks for: nothing when both bounds are
    /// absent, else the two bounds with an absent one read as the epoch.
    pub fn to_query(&self) -> (r: SummaryQuery)
        ensures
            r == summary_query_spec(*self),
    {
        if self.from.is_none() && self.to.is_none() {
            return SummaryQuery::Nothing;
        }
        SummaryQuery::from_bounds(bound_ms(&self.from), bound_ms(&self.to))
    }

    /// The query pair to forward to a processor's own summary endpoint: both
    /// bounds, or none when either is absent.
    pub fn forwarded_bounds(&self) -> (r: Option<(String, String)>)
        ensures
            r is Some <==> (self.from is Some && self.to is Some),
            r matches Some(p) ==> p.0@ == self.from->0@ && p.1@ == self.to->0@,
    {
        match (&self.from, &self.to) {
            (Some(from), Some(to)) => Some((from.clone(), to.clone())),
            _ => None,
        }
    }
}

} // verus!
