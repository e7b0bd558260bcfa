//! The line parser: one fixed pattern, applied to one line, gives the seven
//! fields of an access-log line as text.

use vstd::prelude::*;
use regex::Regex;

verus! {

/// The pattern of an access-log line: host, ident, authuser, the bracketed
/// timestamp (which may be absent from the brackets), the quoted request, a
/// status code of three digits and the byte count.
pub const LOG_PATTERN: &'static str =
    r#"^([\d.]+) (\S+) (\S+) \[([\w:/]+\s[+\-]\d{2}:?\d{2})?\] "(.+?)" (\d{3}) (\d+)"#;

/// The number of groups that a match of `LOG_PATTERN` reports: the whole
/// match and the seven fields.
pub const GROUP_COUNT: usize = 8;

/// `regex::Regex`, a compiled pattern.
#[verifier::external_type_specification]
#[verifier::external_body]
pub struct ExRegex(Regex);

/// `regex::Error`, the error of `Regex::new`. Nothing is read from it.
#[verifier::external_type_specification]
#[verifier::external_body]
pub struct ExRegexError(regex::Error);

/// Whether `Regex::new` accepts `pattern`.
pub uninterp spec fn regex_accepts(pattern: Seq<char>) -> bool;

/// The pattern that a compiled regex matches by. For a regex that
/// `Regex::new` made it is the text that was handed to `Regex::new`, which
/// `Regex::as_str` gives back.
pub uninterp spec fn regex_source(re: Regex) -> Seq<char>;

/// What `Regex::captures` finds in `haystack` for a regex that matches by
/// `pattern`: `None` where nothing matches, else the text of every group of
/// the leftmost match, the whole match first, with `None` for a group that
/// took no part in it.
pub uninterp spec fn regex_captures(pattern: Seq<char>, haystack: Seq<char>) -> Option<
    Seq<Option<Seq<char>>>,
>;

/// The groups of a match as mathematical values.
pub open spec fn groups_view(groups: Seq<Option<String>>) -> Seq<Option<Seq<char>>> {
    groups.map_values(
        |g: Option<String>|
            match g {
                Some(text) => Some(text@),
                None => None,
            },
    )
}

/// `Regex::new`: compiles `pattern`. Whether it succeeds depends on the
/// pattern alone, and the regex that comes back matches by that pattern.
#[verifier::external_body]
fn compile(pattern: &str) -> (r: Result<Regex, regex::Error>)
    ensures
        r is Ok <==> regex_accepts(pattern@),
        r matches Ok(re) ==> regex_source(re) == pattern@,
{
    Regex::new(pattern)
}

/// `Regex::captures`: searches `haystack` for the leftmost match and hands
/// out a copy of the text of each group, in the order of `Captures::iter`.
/// What it finds depends on the pattern that the regex matches by and on the
/// haystack alone.
#[verifier::external_body]
fn captures(re: &Regex, haystack: &str) -> (r: Option<Vec<Option<String>>>)
    ensures
        match r {
            Some(groups) => regex_captures(regex_source(*re), haystack@) == Some(
                groups_view(groups@),
            ),
            None => regex_captures(regex_source(*re), haystack@) is None,
        },
{
    re.captures(haystack).map(
        |found| found.iter().map(|group| group.map(|m| m.as_str().to_owned())).collect(),
    )
}

/// The seven fields of one line, as they stand in it.
#[derive(Clone, Debug, PartialEq, Eq)]
pub struct ParsedFields {
    pub host: String,
    pub ident: String,
    pub authuser: String,
    /// `None` where the brackets hold no timestamp.
    pub timestamp: Option<String>,
    pub request: String,
    pub status: String,
    pub bytes: String,
}

/// `ParsedFields` as a mathematical value.
pub struct ParsedFieldsView {
    pub host: Seq<char>,
    pub ident: Seq<char>,
    pub authuser: Seq<char>,
    pub timestamp: Option<Seq<char>>,
    pub request: Seq<char>,
    pub status: Seq<char>,
    pub bytes: Seq<char>,
}

impl View for ParsedFields {
    type V = ParsedFieldsView;

    open spec fn view(&self) -> ParsedFieldsView {
        ParsedFieldsView {
            host: self.host@,
            ident: self.ident@,
            authuser: self.authuser@,
            timestamp: match self.timestamp {
                Some(text) => Some(text@),
                None => None,
            },
            request: self.request@,
            status: self.status@,
            bytes: self.bytes@,
        }
    }
}

/// The fields that the groups of a match stand for: group 1 to 7 in order.
/// Every group but the timestamp has to be there.
pub open spec fn fields_of_groups(groups: Seq<Option<Seq<char>>>) -> Option<ParsedFieldsView> {
    if groups.len() == GROUP_COUNT && groups[1] is Some && groups[2] is Some && groups[3] is Some
        && groups[5] is Some && groups[6] is Some && groups[7] is Some {
        Some(
            ParsedFieldsView {
                host: groups[1]->0,
                ident: groups[2]->0,
                authuser: groups[3]->0,
                timestamp: groups[4],
                request: groups[5]->0,
                status: groups[6]->0,
                bytes: groups[7]->0,
            },
        )
    } else {
        None
    }
}

/// The fields of `line`, or `None` where the pattern does not match it.
pub open spec fn line_fields(line: Seq<char>) -> Option<ParsedFieldsView> {
    match regex_captures(LOG_PATTERN@, line) {
        Some(groups) => fields_of_groups(groups),
        None => None,
    }
}

/// A copy of the text of group `i`, where the group took part in the match.
fn group_text(groups: &Vec<Option<String>>, i: usize) -> (r: Option<String>)
    requires
        i < groups@.len(),
    ensures
        match r {
            Some(text) => groups_view(groups@)[i as int] == Some(text@),
            None => groups_view(groups@)[i as int] is None,
        },
{
    match &groups[i] {
        Some(text) => Some(text.clone()),
        None => None,
    }
}

/// Picks the seven fields out of the groups of a match.
pub fn fields_from_groups(groups: &Vec<Option<String>>) -> (r: Option<ParsedFields>)
    ensures
        match r {
            Some(fields) => fields_of_groups(groups_view(groups@)) == Some(fields@),
            None => fields_of_groups(groups_view(groups@)) is None,
        },
{
    if groups.len() != GROUP_COUNT {
        return None;
    }
    let host = group_text(groups, 1);
    let ident = group_text(groups, 2);
    let authuser = group_text(groups, 3);
    let timestamp = group_text(groups, 4);
    let request = group_text(groups, 5);
    let status = group_text(groups, 6);
    let bytes = group_text(groups, 7);
    match (host, ident, authuser, request, status, bytes) {
        (Some(host), Some(ident), Some(authuser), Some(request), Some(status), Some(bytes)) => Some(
            ParsedFields { host, ident, authuser, timestamp, request, status, bytes },
        ),
        _ => None,
    }
}

/// The compiled pattern of an access-log line. It is built once and then
/// shared by every line that is parsed.
pub struct LineParser {
    pattern: Regex,
}

impl LineParser {
    #[verifier::type_invariant]
    spec fn compiled_from_log_pattern(&self) -> bool {
        regex_source(self.pattern) == LOG_PATTERN@
    }

    /// Compiles `LOG_PATTERN`. `None` where the regex crate does not accept
    /// it.
    pub fn new() -> (r: Option<LineParser>)
        ensures
            r is Some <==> regex_accepts(LOG_PATTERN@),
    {
        match compile(LOG_PATTERN) {
            Ok(pattern) => Some(LineParser { pattern }),
            Err(_) => None,
        }
    }

    /// Applies the pattern to `line`: the seven fields, or `None` where the
    /// line does not match.
    pub fn parse(&self, line: &str) -> (r: Option<ParsedFields>)
        ensures
            match r {
                Some(fields) => line_fields(line@) == Some(fields@),
                None => line_fields(line@) is None,
            },
    {
        proof {
            use_type_invariant(self);
        }
        match captures(&self.pattern, line) {
            Some(groups) => fields_from_groups(&groups),
            None => None,
        }
    }
}

} // verus!
