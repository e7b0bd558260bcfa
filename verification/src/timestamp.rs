//! The timestamp normalizer: reads the bracketed timestamp under one of two
//! layouts and writes the instant twice, with its own offset and in UTC.

use vstd::prelude::*;
use vstd::string::StringExecFns;
use chrono::DateTime;
use chrono::FixedOffset;
use crate::error::LogError;
use crate::error::LogErrorView;

verus! {

/// The layout with a colon in the offset, as in `+09:00`. It is tried first.
pub const COLON_OFFSET_LAYOUT: &'static str = "%d/%b/%Y:%H:%M:%S %:z";

/// The layout without a colon in the offset, as in `+0900`.
pub const PLAIN_OFFSET_LAYOUT: &'static str = "%d/%b/%Y:%H:%M:%S %z";

/// The diagnostic for a line whose brackets hold no timestamp.
pub const MISSING_TIMESTAMP: &'static str = "timestamp is missing";

/// The diagnostic for an instant that was read but cannot be written.
pub const UNWRITABLE_TIMESTAMP: &'static str = "timestamp cannot be written";

/// An instant together with the offset from UTC that it was written with.
#[derive(Clone, Copy, Debug, PartialEq, Eq)]
pub struct Timestamp {
    /// Seconds since 1970-01-01T00:00:00 UTC, leap seconds not counted.
    pub seconds: i64,
    /// Nanoseconds since the last full second; a billion or more within a
    /// leap second.
    pub nanos: u32,
    /// Seconds that local time is ahead of UTC.
    pub offset: i32,
}

impl Timestamp {
    /// The same instant, seen from UTC.
    pub open spec fn in_utc(self) -> Timestamp {
        Timestamp { seconds: self.seconds, nanos: self.nanos, offset: 0 }
    }

    /// The same instant, seen from UTC.
    #[verifier::when_used_as_spec(in_utc)]
    pub fn to_utc(self) -> (r: Timestamp)
        ensures
            r == self.in_utc(),
    {
        Timestamp { seconds: self.seconds, nanos: self.nanos, offset: 0 }
    }
}

/// `chrono::ParseError`, the error of `DateTime::parse_from_str`.
#[verifier::external_type_specification]
#[verifier::external_body]
pub struct ExParseError(chrono::ParseError);

/// What `DateTime::parse_from_str` reads from `text` under `layout`: the
/// instant and its offset, or the diagnostic of the error that it reports.
pub uninterp spec fn chrono_parse(text: Seq<char>, layout: Seq<char>) -> Result<
    Timestamp,
    Seq<char>,
>;

/// The diagnostic of a `chrono::ParseError`: the text that its `Display`
/// impl writes, which depends on the kind of the error alone.
pub uninterp spec fn chrono_diagnostic(e: chrono::ParseError) -> Seq<char>;

/// What `DateTime::to_rfc3339` writes for the instant `t` at its offset, or
/// `None` where chrono has no date and time for these numbers.
pub uninterp spec fn chrono_rfc3339(t: Timestamp) -> Option<Seq<char>>;

/// Whether chrono can write `t`, at its own offset and in UTC.
pub open spec fn writable(t: Timestamp) -> bool {
    chrono_rfc3339(t) is Some && chrono_rfc3339(t.in_utc()) is Some
}

/// `DateTime::parse_from_str`: reads `text` under `layout`. The result, the
/// error with its diagnostic too, depends on the two texts alone. A date and
/// time that was read is handed out as its `timestamp`, its
/// `timestamp_subsec_nanos` and the `local_minus_utc` of its offset, which
/// together determine it. What was read can be written: chrono documents
/// that `DateTime::from_timestamp` gives back the date and time whose
/// `timestamp` and `timestamp_subsec_nanos` it is handed, and
/// `FixedOffset::east_opt` accepts zero and the `local_minus_utc` of every
/// offset, all of which lie within a day.
#[verifier::external_body]
fn parse_with_layout(text: &str, layout: &str) -> (r: Result<Timestamp, chrono::ParseError>)
    ensures
        match r {
            Ok(t) => chrono_parse(text@, layout@) == Ok::<Timestamp, Seq<char>>(t) && writable(t),
            Err(e) => chrono_parse(text@, layout@) == Err::<Timestamp, Seq<char>>(
                chrono_diagnostic(e),
            ),
        },
{
    DateTime::parse_from_str(text, layout).map(
        |t|
            Timestamp {
                seconds: t.timestamp(),
                nanos: t.timestamp_subsec_nanos(),
                offset: t.offset().local_minus_utc(),
            },
    )
}

/// `to_string` on a `chrono::ParseError`, which runs the `Display` impl of
/// the error: the text of its diagnostic.
#[verifier::external_body]
fn parse_error_text(e: &chrono::ParseError) -> (text: String)
    ensures
        text@ == chrono_diagnostic(*e),
{
    e.to_string()
}

/// `DateTime::to_rfc3339`, on the date and time that `DateTime::from_timestamp`
/// and `FixedOffset::east_opt` make of the three numbers. `None` where one of
/// the two refuses them.
#[verifier::external_body]
fn rfc3339(t: Timestamp) -> (r: Option<String>)
    ensures
        match r {
            Some(text) => chrono_rfc3339(t) == Some(text@),
            None => chrono_rfc3339(t) is None,
        },
{
    let zone = FixedOffset::east_opt(t.offset)?;
    let instant = DateTime::from_timestamp(t.seconds, t.nanos)?;
    Some(instant.with_timezone(&zone).to_rfc3339())
}

/// The instant that `text` writes: what the layout with a colon reads, else
/// what the layout without one reads, its diagnostic included.
pub open spec fn parsed_timestamp(text: Seq<char>) -> Result<Timestamp, Seq<char>> {
    match chrono_parse(text, COLON_OFFSET_LAYOUT@) {
        Ok(t) => Ok(t),
        Err(_) => chrono_parse(text, PLAIN_OFFSET_LAYOUT@),
    }
}

/// One instant, written in RFC 3339 twice.
#[derive(Clone, Debug, PartialEq, Eq)]
pub struct NormalizedTimestamp {
    /// With the offset that the source had.
    pub local: String,
    /// In UTC, with the offset `+00:00`.
    pub utc: String,
}

/// `NormalizedTimestamp` as a mathematical value.
pub struct NormalizedTimestampView {
    pub local: Seq<char>,
    pub utc: Seq<char>,
}

impl View for NormalizedTimestamp {
    type V = NormalizedTimestampView;

    open spec fn view(&self) -> NormalizedTimestampView {
        NormalizedTimestampView { local: self.local@, utc: self.utc@ }
    }
}

/// The two texts for `t`: the instant at its own offset, and the same
/// instant at offset zero.
pub open spec fn rendered(t: Timestamp) -> Option<NormalizedTimestampView> {
    match (chrono_rfc3339(t), chrono_rfc3339(t.in_utc())) {
        (Some(local), Some(utc)) => Some(NormalizedTimestampView { local, utc }),
        _ => None,
    }
}

/// What normalizing gives for a reading of the timestamp text: the two
/// texts of the instant that was read, or the timestamp error. The error
/// carries the diagnostic of the reading where it failed, and
/// `UNWRITABLE_TIMESTAMP` where the instant cannot be written.
pub open spec fn reading_normalized(reading: Result<Timestamp, Seq<char>>) -> Result<
    NormalizedTimestampView,
    LogErrorView,
> {
    match reading {
        Ok(t) => match rendered(t) {
            Some(both) => Ok(both),
            None => Err(LogErrorView::TimestampError(UNWRITABLE_TIMESTAMP@)),
        },
        Err(diagnostic) => Err(LogErrorView::TimestampError(diagnostic)),
    }
}

/// What normalizing the timestamp text `text` gives. Where neither layout
/// reads the text, the error carries the diagnostic of the layout without a
/// colon.
pub open spec fn normalized(text: Seq<char>) -> Result<NormalizedTimestampView, LogErrorView> {
    reading_normalized(parsed_timestamp(text))
}

/// A reading as a mathematical value.
pub open spec fn reading_view(reading: Result<Timestamp, String>) -> Result<Timestamp, Seq<char>> {
    match reading {
        Ok(t) => Ok(t),
        Err(diagnostic) => Err(diagnostic@),
    }
}

/// Of the readings under the two layouts, the first that succeeded; where
/// neither did, the failure of the second.
pub fn first_reading(
    with_colon: Result<Timestamp, String>,
    without_colon: Result<Timestamp, String>,
) -> (r: Result<Timestamp, String>)
    ensures
        r == match with_colon {
            Ok(t) => Ok(t),
            Err(_) => without_colon,
        },
{
    match with_colon {
        Ok(t) => Ok(t),
        Err(_) => without_colon,
    }
}

/// Reads `text` under one layout: the instant, or the diagnostic.
fn read_layout(text: &str, layout: &str) -> (r: Result<Timestamp, String>)
    ensures
        reading_view(r) == chrono_parse(text@, layout@),
        r matches Ok(t) ==> writable(t),
{
    match parse_with_layout(text, layout) {
        Ok(t) => Ok(t),
        Err(e) => Err(parse_error_text(&e)),
    }
}

/// Reads `text` under the two layouts; the first that succeeds wins. The
/// instant that was read can be written.
pub fn parse_timestamp(text: &str) -> (r: Result<Timestamp, String>)
    ensures
        reading_view(r) == parsed_timestamp(text@),
        r matches Ok(t) ==> writable(t),
{
    let with_colon = read_layout(text, COLON_OFFSET_LAYOUT);
    let without_colon = read_layout(text, PLAIN_OFFSET_LAYOUT);
    first_reading(with_colon, without_colon)
}

/// Writes `t` at its own offset and in UTC.
pub fn render_timestamp(t: Timestamp) -> (r: Option<NormalizedTimestamp>)
    ensures
        match r {
            Some(both) => rendered(t) == Some(both@),
            None => rendered(t) is None,
        },
{
    match rfc3339(t) {
        Some(local) => match rfc3339(t.to_utc()) {
            Some(utc) => Some(NormalizedTimestamp { local, utc }),
            None => None,
        },
        None => None,
    }
}

/// The outcome of writing an instant: the two texts, or the timestamp error
/// that carries `UNWRITABLE_TIMESTAMP` where there are none.
pub fn written_timestamp(written: Option<NormalizedTimestamp>) -> (r: Result<
    NormalizedTimestamp,
    LogError,
>)
    ensures
        match written {
            Some(both) => r == Ok::<NormalizedTimestamp, LogError>(both),
            None => r matches Err(e) && e@ == LogErrorView::TimestampError(UNWRITABLE_TIMESTAMP@),
        },
{
    match written {
        Some(both) => Ok(both),
        None => Err(LogError::TimestampError(String::from_str(UNWRITABLE_TIMESTAMP))),
    }
}

/// Normalizes a reading of the timestamp text: writes the instant that was
/// read, or hands on the diagnostic of the reading in a timestamp error.
pub fn normalized_reading(reading: Result<Timestamp, String>) -> (r: Result<
    NormalizedTimestamp,
    LogError,
>)
    ensures
        match r {
            Ok(both) => reading_normalized(reading_view(reading)) == Ok::<
                NormalizedTimestampView,
                LogErrorView,
            >(both@),
            Err(e) => reading_normalized(reading_view(reading)) == Err::<
                NormalizedTimestampView,
                LogErrorView,
            >(e@),
        },
        r is Ok <==> (reading matches Ok(t) && rendered(t) is Some),
{
    match reading {
        Ok(t) => written_timestamp(render_timestamp(t)),
        Err(diagnostic) => Err(LogError::TimestampError(diagnostic)),
    }
}

/// Normalizes the timestamp text of one line. It succeeds exactly where one
/// of the two layouts reads the text.
pub fn normalize_timestamp(text: &str) -> (r: Result<NormalizedTimestamp, LogError>)
    ensures
        match r {
            Ok(both) => normalized(text@) == Ok::<NormalizedTimestampView, LogErrorView>(both@),
            Err(e) => normalized(text@) == Err::<NormalizedTimestampView, LogErrorView>(e@),
        },
        r is Ok <==> parsed_timestamp(text@) is Ok,
{
    normalized_reading(parse_timestamp(text))
}

} // verus!
