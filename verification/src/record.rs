//! The record transformer: from the raw bytes of one line to the JSON text
//! of its structured record, stage by stage, with one error per stage.

use vstd::prelude::*;
use vstd::string::StringExecFns;
use vstd::utf8::decode_utf8;
use vstd::utf8::encode_utf8;
use vstd::utf8::valid_utf8;
use std::string::FromUtf8Error;
use serde_json::Value;
use crate::error::LogError;
use crate::error::LogErrorView;
use crate::json::insert_number;
use crate::json::insert_text;
use crate::json::json_error_text;
use crate::json::json_members;
use crate::json::json_text;
use crate::json::new_object;
use crate::json::object_to_vec;
use crate::json::JsonMember;
use crate::number::decimal_u32;
use crate::number::parse_u32;
use crate::number::validated_u32;
use crate::pattern::line_fields;
use crate::pattern::LineParser;
use crate::pattern::ParsedFields;
use crate::pattern::ParsedFieldsView;
use crate::timestamp::chrono_rfc3339;
use crate::timestamp::normalize_timestamp;
use crate::timestamp::normalized;
use crate::timestamp::parsed_timestamp;
use crate::timestamp::NormalizedTimestamp;
use crate::timestamp::NormalizedTimestampView;
use crate::timestamp::MISSING_TIMESTAMP;

verus! {

/// One access-log line as a structured record.
#[derive(Clone, Debug, PartialEq, Eq)]
pub struct AccessLogRecord {
    pub host: String,
    pub ident: String,
    pub authuser: String,
    /// The instant in RFC 3339, with the offset that the line had.
    pub timestamp: String,
    /// The same instant in RFC 3339, in UTC.
    pub timestamp_utc: String,
    /// The whole request line.
    pub request: String,
    /// The HTTP status code.
    pub response: u32,
    /// The size of the response.
    pub bytes: u32,
}

/// `AccessLogRecord` as a mathematical value.
pub struct AccessLogRecordView {
    pub host: Seq<char>,
    pub ident: Seq<char>,
    pub authuser: Seq<char>,
    pub timestamp: Seq<char>,
    pub timestamp_utc: Seq<char>,
    pub request: Seq<char>,
    pub response: u32,
    pub bytes: u32,
}

impl View for AccessLogRecord {
    type V = AccessLogRecordView;

    open spec fn view(&self) -> AccessLogRecordView {
        AccessLogRecordView {
            host: self.host@,
            ident: self.ident@,
            authuser: self.authuser@,
            timestamp: self.timestamp@,
            timestamp_utc: self.timestamp_utc@,
            request: self.request@,
            response: self.response,
            bytes: self.bytes,
        }
    }
}

impl AccessLogRecordView {
    /// The members of the JSON object that stands for the record: the six
    /// texts and the two numbers, each under its key.
    pub open spec fn members(self) -> Map<Seq<char>, JsonMember> {
        Map::<Seq<char>, JsonMember>::empty()
            .insert("host"@, JsonMember::Text(self.host))
            .insert("ident"@, JsonMember::Text(self.ident))
            .insert("authuser"@, JsonMember::Text(self.authuser))
            .insert("timestamp"@, JsonMember::Text(self.timestamp))
            .insert("timestamp_utc"@, JsonMember::Text(self.timestamp_utc))
            .insert("request"@, JsonMember::Text(self.request))
            .insert("response"@, JsonMember::Number(self.response))
            .insert("bytes"@, JsonMember::Number(self.bytes))
    }
}

/// The eight keys differ from one another: the object of a record holds
/// eight members, each text and each number under its own key.
pub proof fn members_by_key(record: AccessLogRecordView)
    ensures
        record.members().dom() =~= set![
            "host"@,
            "ident"@,
            "authuser"@,
            "timestamp"@,
            "timestamp_utc"@,
            "request"@,
            "response"@,
            "bytes"@,
        ],
        record.members()["host"@] == JsonMember::Text(record.host),
        record.members()["ident"@] == JsonMember::Text(record.ident),
        record.members()["authuser"@] == JsonMember::Text(record.authuser),
        record.members()["timestamp"@] == JsonMember::Text(record.timestamp),
        record.members()["timestamp_utc"@] == JsonMember::Text(record.timestamp_utc),
        record.members()["request"@] == JsonMember::Text(record.request),
        record.members()["response"@] == JsonMember::Number(record.response),
        record.members()["bytes"@] == JsonMember::Number(record.bytes),
{
    reveal_strlit("host");
    reveal_strlit("ident");
    reveal_strlit("authuser");
    reveal_strlit("timestamp");
    reveal_strlit("timestamp_utc");
    reveal_strlit("request");
    reveal_strlit("response");
    reveal_strlit("bytes");
    assert("host"@.len() == 4);
    assert("ident"@.len() == 5 && "ident"@[0] == 'i');
    assert("authuser"@.len() == 8 && "authuser"@[0] == 'a');
    assert("timestamp"@.len() == 9);
    assert("timestamp_utc"@.len() == 13);
    assert("request"@.len() == 7);
    assert("response"@.len() == 8 && "response"@[0] == 'r');
    assert("bytes"@.len() == 5 && "bytes"@[0] == 'b');
}

impl AccessLogRecord {
    /// The record as a JSON object.
    pub fn to_json(&self) -> (object: serde_json::Map<String, Value>)
        ensures
            json_members(object) == self@.members(),
    {
        let mut object = new_object();
        insert_text(&mut object, "host", self.host.as_str());
        insert_text(&mut object, "ident", self.ident.as_str());
        insert_text(&mut object, "authuser", self.authuser.as_str());
        insert_text(&mut object, "timestamp", self.timestamp.as_str());
        insert_text(&mut object, "timestamp_utc", self.timestamp_utc.as_str());
        insert_text(&mut object, "request", self.request.as_str());
        insert_number(&mut object, "response", self.response);
        insert_number(&mut object, "bytes", self.bytes);
        object
    }
}

/// What validating the two numbers of `fields` and assembling the record
/// gives, with `stamp` for the two timestamps: the record, or the numeric
/// error of the status code, or else that of the byte count.
pub open spec fn assembled(fields: ParsedFieldsView, stamp: NormalizedTimestampView) -> Result<
    AccessLogRecordView,
    LogErrorView,
> {
    match validated_u32(fields.status) {
        Err(e) => Err(e),
        Ok(response) => match validated_u32(fields.bytes) {
            Err(e) => Err(e),
            Ok(bytes) => Ok(
                AccessLogRecordView {
                    host: fields.host,
                    ident: fields.ident,
                    authuser: fields.authuser,
                    timestamp: stamp.local,
                    timestamp_utc: stamp.utc,
                    request: fields.request,
                    response,
                    bytes,
                },
            ),
        },
    }
}

/// What normalizing the timestamp field of a line gives. A line without a
/// timestamp fails with the timestamp error that carries
/// `MISSING_TIMESTAMP`.
pub open spec fn field_timestamp(timestamp: Option<Seq<char>>) -> Result<
    NormalizedTimestampView,
    LogErrorView,
> {
    match timestamp {
        Some(text) => normalized(text),
        None => Err(LogErrorView::TimestampError(MISSING_TIMESTAMP@)),
    }
}

/// The record that the fields of a line make, or the error of the first
/// stage that fails: the timestamp first, then the status code, then the
/// byte count.
pub open spec fn fields_record(fields: ParsedFieldsView) -> Result<
    AccessLogRecordView,
    LogErrorView,
> {
    match field_timestamp(fields.timestamp) {
        Ok(stamp) => assembled(fields, stamp),
        Err(e) => Err(e),
    }
}

/// The record for what the pattern found in a line: the record of the
/// fields, or the pattern mismatch where it found none.
pub open spec fn match_record(found: Option<ParsedFieldsView>) -> Result<
    AccessLogRecordView,
    LogErrorView,
> {
    match found {
        Some(fields) => fields_record(fields),
        None => Err(LogErrorView::PatternMismatch),
    }
}

/// The record of the line `line`, or the error of the first stage that
/// fails.
pub open spec fn line_record(line: Seq<char>) -> Result<AccessLogRecordView, LogErrorView> {
    match_record(line_fields(line))
}

/// Whether the fields of a line pass the stages that follow the pattern:
/// there is a timestamp, one of the two layouts reads it, and the status
/// code and the byte count are unsigned 32-bit numbers.
pub open spec fn fields_well_formed(fields: ParsedFieldsView) -> bool {
    &&& fields.timestamp is Some
    &&& parsed_timestamp(fields.timestamp->0) is Ok
    &&& validated_u32(fields.status) is Ok
    &&& validated_u32(fields.bytes) is Ok
}

/// Whether the line matches the pattern and its fields pass the stages that
/// follow.
pub open spec fn line_well_formed(line: Seq<char>) -> bool {
    line_fields(line) is Some && fields_well_formed(line_fields(line)->0)
}

/// Whether the bytes are UTF-8 and encode a well-formed line.
pub open spec fn well_formed(data: Seq<u8>) -> bool {
    valid_utf8(data) && line_well_formed(decode_utf8(data))
}

/// What the pattern found, as a mathematical value.
pub open spec fn found_view(found: Option<ParsedFields>) -> Option<ParsedFieldsView> {
    match found {
        Some(fields) => Some(fields@),
        None => None,
    }
}

/// The JSON text of an object with the members `members`, or the
/// serialization error with the serializer's diagnostic.
pub open spec fn serialized(members: Map<Seq<char>, JsonMember>) -> Result<Seq<u8>, LogErrorView> {
    match json_text(members) {
        Ok(bytes) => Ok(bytes),
        Err(diagnostic) => Err(LogErrorView::SerializationError(diagnostic)),
    }
}

/// What transforming the raw bytes `data` gives: the JSON text of the record
/// of the line that they encode, or the error of the first stage that fails.
pub open spec fn transformed(data: Seq<u8>) -> Result<Seq<u8>, LogErrorView> {
    if !valid_utf8(data) {
        Err(LogErrorView::EncodingError(utf8_fault(data)))
    } else {
        match line_record(decode_utf8(data)) {
            Ok(record) => serialized(record.members()),
            Err(e) => Err(e),
        }
    }
}

/// Where a line has a record, the texts of the record are those of the
/// line, and its two numbers are what the status code and the byte count of
/// the line write in decimal; the JSON object holds them as numbers under
/// `response` and `bytes`. Its two timestamps are the RFC 3339 texts of the
/// one instant that the timestamp of the line writes, the first at the
/// offset of the line, the second at offset zero; the JSON object holds them
/// under `timestamp` and `timestamp_utc`.
pub proof fn round_trip_on_success(line: Seq<char>)
    requires
        line_record(line) is Ok,
    ensures
        ({
            let record = line_record(line)->Ok_0;
            let fields = line_fields(line)->0;
            let instant = parsed_timestamp(fields.timestamp->0)->Ok_0;
            &&& line_fields(line) is Some
            &&& record.host == fields.host
            &&& record.ident == fields.ident
            &&& record.authuser == fields.authuser
            &&& record.request == fields.request
            &&& decimal_u32(encode_utf8(fields.status)) == Some(record.response)
            &&& decimal_u32(encode_utf8(fields.bytes)) == Some(record.bytes)
            &&& record.members()["response"@] == JsonMember::Number(record.response)
            &&& record.members()["bytes"@] == JsonMember::Number(record.bytes)
            &&& fields.timestamp is Some
            &&& parsed_timestamp(fields.timestamp->0) is Ok
            &&& chrono_rfc3339(instant) == Some(record.timestamp)
            &&& chrono_rfc3339(instant.in_utc()) == Some(record.timestamp_utc)
            &&& instant.in_utc().seconds == instant.seconds
            &&& instant.in_utc().nanos == instant.nanos
            &&& instant.in_utc().offset == 0
            &&& record.members()["timestamp"@] == JsonMember::Text(record.timestamp)
            &&& record.members()["timestamp_utc"@] == JsonMember::Text(record.timestamp_utc)
        }),
{
    members_by_key(line_record(line)->Ok_0);
}

/// `std::string::FromUtf8Error`, the error of `String::from_utf8`.
#[verifier::external_type_specification]
#[verifier::external_body]
pub struct ExFromUtf8Error(FromUtf8Error);

/// The diagnostic that `String::from_utf8` gives for the bytes `bytes`,
/// where they are not UTF-8.
pub uninterp spec fn utf8_fault(bytes: Seq<u8>) -> Seq<char>;

/// The diagnostic of a `FromUtf8Error`: the text that its `Display` impl
/// writes.
pub uninterp spec fn utf8_diagnostic(e: FromUtf8Error) -> Seq<char>;

/// `String::from_utf8`: succeeds exactly on valid UTF-8, and the string
/// then holds the characters that the bytes encode. The diagnostic of its
/// error depends on the bytes alone.
pub assume_specification[ String::from_utf8 ](vec: Vec<u8>) -> (r: Result<String, FromUtf8Error>)
    ensures
        r is Ok <==> valid_utf8(vec@),
        r matches Ok(text) ==> text@ == decode_utf8(vec@),
        r matches Err(e) ==> utf8_diagnostic(e) == utf8_fault(vec@),
;

/// `to_string` on a `FromUtf8Error`, which runs the `Display` impl of the
/// error: the text of its diagnostic.
#[verifier::external_body]
fn utf8_error_text(e: &FromUtf8Error) -> (text: String)
    ensures
        text@ == utf8_diagnostic(*e),
{
    e.to_string()
}

/// The outcome of decoding: the text, or the encoding error that carries
/// the decoder's diagnostic.
pub fn decoded_line(decoded: Result<String, String>) -> (r: Result<String, LogError>)
    ensures
        match decoded {
            Ok(text) => r == Ok::<String, LogError>(text),
            Err(diagnostic) => r matches Err(e) && e@ == LogErrorView::EncodingError(diagnostic@),
        },
{
    match decoded {
        Ok(text) => Ok(text),
        Err(diagnostic) => Err(LogError::EncodingError(diagnostic)),
    }
}

/// Decodes the raw bytes of a line as UTF-8 text.
pub fn decode_line(data: Vec<u8>) -> (r: Result<String, LogError>)
    ensures
        match r {
            Ok(text) => valid_utf8(data@) && text@ == decode_utf8(data@),
            Err(e) => !valid_utf8(data@) && e@ == LogErrorView::EncodingError(utf8_fault(data@)),
        },
{
    match String::from_utf8(data) {
        Ok(text) => decoded_line(Ok(text)),
        Err(e) => decoded_line(Err(utf8_error_text(&e))),
    }
}

/// Validates the status code and the byte count of a parsed line and
/// assembles the record, with `stamp` for its two timestamps.
pub fn assemble_record(fields: ParsedFields, stamp: NormalizedTimestamp) -> (r: Result<
    AccessLogRecord,
    LogError,
>)
    ensures
        match r {
            Ok(record) => assembled(fields@, stamp@) == Ok::<AccessLogRecordView, LogErrorView>(
                record@,
            ),
            Err(e) => assembled(fields@, stamp@) == Err::<AccessLogRecordView, LogErrorView>(e@),
        },
{
    let response = match parse_u32(fields.status.as_str()) {
        Ok(n) => n,
        Err(e) => {
            return Err(e);
        },
    };
    let bytes = match parse_u32(fields.bytes.as_str()) {
        Ok(n) => n,
        Err(e) => {
            return Err(e);
        },
    };
    Ok(
        AccessLogRecord {
            host: fields.host,
            ident: fields.ident,
            authuser: fields.authuser,
            timestamp: stamp.local,
            timestamp_utc: stamp.utc,
            request: fields.request,
            response,
            bytes,
        },
    )
}

/// Makes the record of a parsed line: normalizes the timestamp, then
/// validates the numbers and assembles. It succeeds exactly on well-formed
/// fields.
pub fn record_from_fields(fields: ParsedFields) -> (r: Result<AccessLogRecord, LogError>)
    ensures
        match r {
            Ok(record) => fields_record(fields@) == Ok::<AccessLogRecordView, LogErrorView>(
                record@,
            ),
            Err(e) => fields_record(fields@) == Err::<AccessLogRecordView, LogErrorView>(e@),
        },
        r is Ok <==> fields_well_formed(fields@),
{
    let stamp = match &fields.timestamp {
        Some(text) => normalize_timestamp(text.as_str()),
        None => Err(LogError::TimestampError(String::from_str(MISSING_TIMESTAMP))),
    };
    match stamp {
        Ok(stamp) => assemble_record(fields, stamp),
        Err(e) => Err(e),
    }
}

/// Makes the record for what the pattern found in a line: the record of
/// the fields, or the pattern mismatch where it found none.
pub fn record_of_match(found: Option<ParsedFields>) -> (r: Result<AccessLogRecord, LogError>)
    ensures
        match r {
            Ok(record) => match_record(found_view(found)) == Ok::<
                AccessLogRecordView,
                LogErrorView,
            >(record@),
            Err(e) => match_record(found_view(found)) == Err::<AccessLogRecordView, LogErrorView>(
                e@,
            ),
        },
        r is Ok <==> (found matches Some(fields) && fields_well_formed(fields@)),
{
    match found {
        Some(fields) => record_from_fields(fields),
        None => Err(LogError::PatternMismatch),
    }
}

/// Parses one line into its record. It succeeds exactly on a well-formed
/// line.
pub fn parse_record(parser: &LineParser, line: &str) -> (r: Result<AccessLogRecord, LogError>)
    ensures
        match r {
            Ok(record) => line_record(line@) == Ok::<AccessLogRecordView, LogErrorView>(record@),
            Err(e) => line_record(line@) == Err::<AccessLogRecordView, LogErrorView>(e@),
        },
        r is Ok <==> line_well_formed(line@),
{
    record_of_match(parser.parse(line))
}

/// Turns one access-log line into the JSON object of its record. It
/// succeeds exactly on a well-formed line.
pub fn apache_log2json(parser: &LineParser, s: &str) -> (r: Result<
    serde_json::Map<String, Value>,
    LogError,
>)
    ensures
        match r {
            Ok(object) => line_record(s@) matches Ok(record) && json_members(object)
                == record.members(),
            Err(e) => line_record(s@) == Err::<AccessLogRecordView, LogErrorView>(e@),
        },
        r is Ok <==> line_well_formed(s@),
{
    match parse_record(parser, s) {
        Ok(record) => Ok(record.to_json()),
        Err(e) => Err(e),
    }
}

/// The outcome of writing: the JSON text, or the serialization error that
/// carries the serializer's diagnostic.
pub fn written_text(written: Result<Vec<u8>, String>) -> (r: Result<Vec<u8>, LogError>)
    ensures
        match written {
            Ok(bytes) => r == Ok::<Vec<u8>, LogError>(bytes),
            Err(diagnostic) => r matches Err(e) && e@ == LogErrorView::SerializationError(
                diagnostic@,
            ),
        },
{
    match written {
        Ok(bytes) => Ok(bytes),
        Err(diagnostic) => Err(LogError::SerializationError(diagnostic)),
    }
}

/// Writes a JSON object as text. The serializer reports no error on an
/// object; were it to report one, the error would be handed on.
pub fn serialize_object(object: &serde_json::Map<String, Value>) -> (r: Result<Vec<u8>, LogError>)
    ensures
        match r {
            Ok(bytes) => serialized(json_members(*object)) == Ok::<Seq<u8>, LogErrorView>(bytes@),
            Err(e) => serialized(json_members(*object)) == Err::<Seq<u8>, LogErrorView>(e@),
        },
        r is Ok,
{
    match object_to_vec(object) {
        Ok(bytes) => written_text(Ok(bytes)),
        Err(e) => written_text(Err(json_error_text(&e))),
    }
}

/// Transforms the raw bytes of one line into the JSON text of its record.
/// It succeeds exactly where the bytes are UTF-8 and encode a well-formed
/// line.
pub fn transform_data(parser: &LineParser, data: Vec<u8>) -> (r: Result<Vec<u8>, LogError>)
    ensures
        match r {
            Ok(bytes) => transformed(data@) == Ok::<Seq<u8>, LogErrorView>(bytes@),
            Err(e) => transformed(data@) == Err::<Seq<u8>, LogErrorView>(e@),
        },
        r is Ok <==> well_formed(data@),
{
    let s = match decode_line(data) {
        Ok(s) => s,
        Err(e) => {
            return Err(e);
        },
    };
    let object = match apache_log2json(parser, s.as_str()) {
        Ok(object) => object,
        Err(e) => {
            return Err(e);
        },
    };
    serialize_object(&object)
}

} // verus!
