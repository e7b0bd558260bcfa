use access_log_transform::apache_log2json;
use access_log_transform::record::assemble_record;
use access_log_transform::record::decode_line;
use access_log_transform::record::decoded_line;
use access_log_transform::record::parse_record;
use access_log_transform::record::record_of_match;
use access_log_transform::record::written_text;
use access_log_transform::record::record_from_fields;
use access_log_transform::record::serialize_object;
use access_log_transform::timestamp::NormalizedTimestamp;
use access_log_transform::transform_data;
use access_log_transform::AccessLogRecord;
use access_log_transform::LineParser;
use access_log_transform::LogError;
use access_log_transform::ParsedFields;
use serde_json::Value;

const EXAMPLE: &str = r#"7.248.7.119 - - [14/Dec/2017:22:16:45 +09:00] "GET /explore" 200 9947 "-" "Mozilla/5.0 (Windows NT 6.2; WOW64; rv:8.5) Gecko/20100101 Firefox/8.5.1" "#;

const EXAMPLE_JSON: &str = r#"{"authuser":"-","bytes":9947,"host":"7.248.7.119","ident":"-","request":"GET /explore","response":200,"timestamp":"2017-12-14T22:16:45+09:00","timestamp_utc":"2017-12-14T13:16:45+00:00"}"#;

fn parser() -> LineParser {
    LineParser::new().expect("the access-log pattern compiles")
}

#[test]
fn transform_data_test() {
    let data = r#"7.248.7.119 - - [14/Dec/2017:22:16:45 +09:00] "GET /explore" 200 9947 "-" "Mozilla/5.0 (Windows NT 6.2; WOW64; rv:8.5) Gecko/20100101 Firefox/8.5.1" "#;
    let a = apache_log2json(&parser(), data).unwrap();

    println!("{}", Value::Object(a));
}

#[test]
fn example_line_gives_every_field() {
    let object = apache_log2json(&parser(), EXAMPLE).unwrap();
    assert_eq!(object.len(), 8);
    assert_eq!(object.get("host"), Some(&Value::from("7.248.7.119")));
    assert_eq!(object.get("ident"), Some(&Value::from("-")));
    assert_eq!(object.get("authuser"), Some(&Value::from("-")));
    assert_eq!(object.get("request"), Some(&Value::from("GET /explore")));
    assert_eq!(object.get("response"), Some(&Value::from(200u32)));
    assert_eq!(object.get("bytes"), Some(&Value::from(9947u32)));
    assert_eq!(object.get("timestamp"), Some(&Value::from("2017-12-14T22:16:45+09:00")));
    assert_eq!(object.get("timestamp_utc"), Some(&Value::from("2017-12-14T13:16:45+00:00")));
}

#[test]
fn example_line_gives_exact_json_text() {
    let bytes = transform_data(&parser(), EXAMPLE.as_bytes().to_vec()).unwrap();
    assert_eq!(String::from_utf8(bytes).unwrap(), EXAMPLE_JSON);
}

#[test]
fn json_text_parses_back_to_the_source_numbers() {
    let line = r#"10.0.0.1 bob alice [01/Jan/2020:00:00:00 -0500] "POST /a/b HTTP/1.1" 404 0012345"#;
    let bytes = transform_data(&parser(), line.as_bytes().to_vec()).unwrap();
    let value: Value = serde_json::from_slice(&bytes).unwrap();
    assert_eq!(value["response"].as_u64(), Some("404".parse::<u64>().unwrap()));
    assert_eq!(value["bytes"].as_u64(), Some("0012345".parse::<u64>().unwrap()));
    assert_eq!(value["host"].as_str(), Some("10.0.0.1"));
    assert_eq!(value["ident"].as_str(), Some("bob"));
    assert_eq!(value["authuser"].as_str(), Some("alice"));
    assert_eq!(value["request"].as_str(), Some("POST /a/b HTTP/1.1"));
    assert_eq!(value["timestamp"].as_str(), Some("2020-01-01T00:00:00-05:00"));
    assert_eq!(value["timestamp_utc"].as_str(), Some("2020-01-01T05:00:00+00:00"));
}

#[test]
fn parse_record_fills_the_record() {
    let record = parse_record(&parser(), EXAMPLE).unwrap();
    assert_eq!(record.host, "7.248.7.119");
    assert_eq!(record.ident, "-");
    assert_eq!(record.authuser, "-");
    assert_eq!(record.timestamp, "2017-12-14T22:16:45+09:00");
    assert_eq!(record.timestamp_utc, "2017-12-14T13:16:45+00:00");
    assert_eq!(record.request, "GET /explore");
    assert_eq!(record.response, 200);
    assert_eq!(record.bytes, 9947);
}

#[test]
fn json_object_has_exactly_the_eight_keys() {
    let bytes = transform_data(&parser(), EXAMPLE.as_bytes().to_vec()).unwrap();
    assert_ne!(bytes, EXAMPLE.as_bytes().to_vec());
    let value: Value = serde_json::from_slice(&bytes).unwrap();
    let object = value.as_object().unwrap();
    let keys: Vec<&str> = object.keys().map(|k| k.as_str()).collect();
    assert_eq!(
        keys,
        vec![
            "authuser",
            "bytes",
            "host",
            "ident",
            "request",
            "response",
            "timestamp",
            "timestamp_utc"
        ]
    );
    for key in ["host", "ident", "authuser", "timestamp", "timestamp_utc", "request"] {
        assert!(object[key].is_string());
    }
    for key in ["response", "bytes"] {
        assert!(object[key].as_u64().unwrap() <= 4294967295);
    }
    assert_eq!(object.len(), 8);
}

#[test]
fn utc_timestamp_carries_the_date_back() {
    let line = r#"1.2.3.4 - - [01/Jan/2018:03:00:00 +0900] "GET /" 200 5"#;
    let bytes = transform_data(&parser(), line.as_bytes().to_vec()).unwrap();
    let value: Value = serde_json::from_slice(&bytes).unwrap();
    assert_eq!(value["timestamp"].as_str(), Some("2018-01-01T03:00:00+09:00"));
    assert_eq!(value["timestamp_utc"].as_str(), Some("2017-12-31T18:00:00+00:00"));
}

#[test]
fn offset_without_colon_gives_the_same_members() {
    let line = r#"7.248.7.119 - - [14/Dec/2017:22:16:45 +0900] "GET /explore" 200 9947"#;
    let object = apache_log2json(&parser(), line).unwrap();
    assert_eq!(object.get("timestamp"), Some(&Value::from("2017-12-14T22:16:45+09:00")));
    assert_eq!(object.get("timestamp_utc"), Some(&Value::from("2017-12-14T13:16:45+00:00")));
    assert_eq!(object, apache_log2json(&parser(), EXAMPLE).unwrap());
}

#[test]
fn both_offset_layouts_give_the_same_instant() {
    let with_colon = r#"1.2.3.4 - - [14/Dec/2017:22:16:45 +09:00] "GET /" 200 1"#;
    let without_colon = r#"1.2.3.4 - - [14/Dec/2017:22:16:45 +0900] "GET /" 200 1"#;
    let a = parse_record(&parser(), with_colon).unwrap();
    let b = parse_record(&parser(), without_colon).unwrap();
    assert_eq!(a.timestamp, "2017-12-14T22:16:45+09:00");
    assert_eq!(a.timestamp_utc, "2017-12-14T13:16:45+00:00");
    assert_eq!(b.timestamp, a.timestamp);
    assert_eq!(b.timestamp_utc, a.timestamp_utc);
    assert_eq!(
        transform_data(&parser(), with_colon.as_bytes().to_vec()).unwrap(),
        transform_data(&parser(), without_colon.as_bytes().to_vec()).unwrap()
    );
}

#[test]
fn two_digit_status_does_not_match() {
    let line = r#"1.2.3.4 - - [14/Dec/2017:22:16:45 +09:00] "GET /" 20 1"#;
    let r = transform_data(&parser(), line.as_bytes().to_vec());
    assert!(matches!(r, Err(LogError::PatternMismatch)));
}

#[test]
fn four_digit_status_does_not_match() {
    let line = r#"1.2.3.4 - - [14/Dec/2017:22:16:45 +09:00] "GET /" 2000 1"#;
    let r = transform_data(&parser(), line.as_bytes().to_vec());
    assert!(matches!(r, Err(LogError::PatternMismatch)));
}

#[test]
fn text_that_is_no_log_line_does_not_match() {
    let r = transform_data(&parser(), b"not a log line".to_vec());
    assert!(matches!(r, Err(LogError::PatternMismatch)));
    assert!(parser().parse("not a log line").is_none());
}

#[test]
fn empty_input_does_not_match() {
    let r = transform_data(&parser(), Vec::new());
    assert!(matches!(r, Err(LogError::PatternMismatch)));
}

#[test]
fn bytes_that_are_not_utf8_are_an_encoding_error() {
    let mut data = EXAMPLE.as_bytes().to_vec();
    data[3] = 0xff;
    assert_eq!(
        transform_data(&parser(), data),
        Err(LogError::EncodingError("invalid utf-8 sequence of 1 bytes from index 3".to_string()))
    );
    assert_eq!(
        transform_data(&parser(), vec![0xc0, 0x80]),
        Err(LogError::EncodingError("invalid utf-8 sequence of 1 bytes from index 0".to_string()))
    );
    assert_eq!(
        transform_data(&parser(), vec![0xed, 0xa0, 0x80]),
        Err(LogError::EncodingError("invalid utf-8 sequence of 1 bytes from index 0".to_string()))
    );
    assert_eq!(
        transform_data(&parser(), vec![b'a', 0xe2, 0x82]),
        Err(LogError::EncodingError("incomplete utf-8 byte sequence from index 1".to_string()))
    );
}

#[test]
fn unparsable_timestamp_is_a_timestamp_error() {
    let line = r#"1.2.3.4 - - [14/Foo/2017:22:16:45 +09:00] "GET /" 200 1"#;
    match transform_data(&parser(), line.as_bytes().to_vec()) {
        Err(LogError::TimestampError(text)) => assert_eq!(text, "input contains invalid characters"),
        other => panic!("unexpected: {:?}", other),
    }
    let line = r#"1.2.3.4 - - [31/Feb/2017:22:16:45 +09:00] "GET /" 200 1"#;
    match transform_data(&parser(), line.as_bytes().to_vec()) {
        Err(LogError::TimestampError(text)) => assert_eq!(text, "input is out of range"),
        other => panic!("unexpected: {:?}", other),
    }
}

#[test]
fn empty_brackets_are_a_timestamp_error() {
    let line = r#"1.2.3.4 - - [] "GET /" 200 1"#;
    let fields = parser().parse(line).unwrap();
    assert_eq!(fields.timestamp, None);
    assert_eq!(fields.host, "1.2.3.4");
    match transform_data(&parser(), line.as_bytes().to_vec()) {
        Err(LogError::TimestampError(text)) => assert_eq!(text, "timestamp is missing"),
        other => panic!("unexpected: {:?}", other),
    }
}

#[test]
fn byte_count_that_overflows_is_a_numeric_error() {
    let line = r#"1.2.3.4 - - [14/Dec/2017:22:16:45 +09:00] "GET /" 200 4294967296"#;
    match transform_data(&parser(), line.as_bytes().to_vec()) {
        Err(LogError::NumericError(text)) => assert_eq!(text, "4294967296"),
        other => panic!("unexpected: {:?}", other),
    }
    let line = r#"1.2.3.4 - - [14/Dec/2017:22:16:45 +09:00] "GET /" 200 4294967295"#;
    let record = parse_record(&parser(), line).unwrap();
    assert_eq!(record.bytes, 4294967295);
}

#[test]
fn digits_outside_ascii_are_a_numeric_error() {
    let line = "1.2.3.4 - - [14/Dec/2017:22:16:45 +09:00] \"GET /\" \u{ff12}\u{ff10}\u{ff10} 1";
    match transform_data(&parser(), line.as_bytes().to_vec()) {
        Err(LogError::NumericError(text)) => assert_eq!(text, "\u{ff12}\u{ff10}\u{ff10}"),
        other => panic!("unexpected: {:?}", other),
    }
}

#[test]
fn timestamp_error_comes_before_numeric_error() {
    let line = r#"1.2.3.4 - - [14/Foo/2017:22:16:45 +09:00] "GET /" 200 4294967296"#;
    assert!(matches!(
        transform_data(&parser(), line.as_bytes().to_vec()),
        Err(LogError::TimestampError(_))
    ));
}

#[test]
fn request_may_hold_quotes_and_ends_before_the_first_status() {
    let line = r#"1.2.3.4 - - [14/Dec/2017:22:16:45 +09:00] "GET /a "b" c" 200 5 "x" 404 7"#;
    let fields = parser().parse(line).unwrap();
    assert_eq!(fields.request, r#"GET /a "b" c"#);
    assert_eq!(fields.status, "200");
    assert_eq!(fields.bytes, "5");
    let line = r#"1.2.3.4 - - [14/Dec/2017:22:16:45 +09:00] "GET /a" 20 5 "x" 404 7"#;
    let fields = parser().parse(line).unwrap();
    assert_eq!(fields.request, r#"GET /a" 20 5 "x"#);
    assert_eq!(fields.status, "404");
    assert_eq!(fields.bytes, "7");
}

#[test]
fn parse_gives_the_seven_fields_as_they_stand() {
    let fields = parser().parse(EXAMPLE).unwrap();
    assert_eq!(fields.host, "7.248.7.119");
    assert_eq!(fields.ident, "-");
    assert_eq!(fields.authuser, "-");
    assert_eq!(fields.timestamp.as_deref(), Some("14/Dec/2017:22:16:45 +09:00"));
    assert_eq!(fields.request, "GET /explore");
    assert_eq!(fields.status, "200");
    assert_eq!(fields.bytes, "9947");
}

#[test]
fn host_is_any_run_of_digits_and_dots() {
    let line = r#"..9.. a b [14/Dec/2017:22:16:45 +09:00] "x" 999 0"#;
    let fields = parser().parse(line).unwrap();
    assert_eq!(fields.host, "..9..");
    assert!(parser().parse(r#"host a b [14/Dec/2017:22:16:45 +09:00] "x" 999 0"#).is_none());
    assert!(parser().parse(r#" 1.2.3.4 a b [14/Dec/2017:22:16:45 +09:00] "x" 999 0"#).is_none());
}

fn fields(timestamp: Option<&str>, status: &str, bytes: &str) -> ParsedFields {
    ParsedFields {
        host: "h".to_string(),
        ident: "i".to_string(),
        authuser: "a".to_string(),
        timestamp: timestamp.map(|t| t.to_string()),
        request: "r".to_string(),
        status: status.to_string(),
        bytes: bytes.to_string(),
    }
}

fn stamp() -> NormalizedTimestamp {
    NormalizedTimestamp { local: "local".to_string(), utc: "utc".to_string() }
}

#[test]
fn assemble_record_validates_and_assembles() {
    let record = assemble_record(fields(None, "+7", "0"), stamp()).unwrap();
    assert_eq!(
        record,
        AccessLogRecord {
            host: "h".to_string(),
            ident: "i".to_string(),
            authuser: "a".to_string(),
            timestamp: "local".to_string(),
            timestamp_utc: "utc".to_string(),
            request: "r".to_string(),
            response: 7,
            bytes: 0,
        }
    );
}

#[test]
fn assemble_record_reports_the_status_before_the_byte_count() {
    assert_eq!(
        assemble_record(fields(None, "2x0", ""), stamp()),
        Err(LogError::NumericError("2x0".to_string()))
    );
    assert_eq!(
        assemble_record(fields(None, "200", ""), stamp()),
        Err(LogError::NumericError("".to_string()))
    );
    assert_eq!(
        assemble_record(fields(None, "200", "4294967296"), stamp()),
        Err(LogError::NumericError("4294967296".to_string()))
    );
}

#[test]
fn record_from_fields_runs_the_stages_in_order() {
    let record = record_from_fields(fields(Some("01/Jan/1970:00:00:00 +0000"), "200", "5")).unwrap();
    assert_eq!(record.timestamp, "1970-01-01T00:00:00+00:00");
    assert_eq!(record.timestamp_utc, "1970-01-01T00:00:00+00:00");
    assert_eq!(record.response, 200);
    assert_eq!(record.bytes, 5);
    assert_eq!(
        record_from_fields(fields(None, "200", "5")),
        Err(LogError::TimestampError("timestamp is missing".to_string()))
    );
    assert_eq!(
        record_from_fields(fields(Some("never"), "x", "y")),
        Err(LogError::TimestampError("input contains invalid characters".to_string()))
    );
    assert_eq!(
        record_from_fields(fields(Some("01/Jan/1970:00:00:00 +0000"), "x", "y")),
        Err(LogError::NumericError("x".to_string()))
    );
}

#[test]
fn record_to_json_and_text() {
    let record = AccessLogRecord {
        host: "h\"q".to_string(),
        ident: "i".to_string(),
        authuser: "a".to_string(),
        timestamp: "t".to_string(),
        timestamp_utc: "u".to_string(),
        request: "r\\".to_string(),
        response: 0,
        bytes: 4294967295,
    };
    let object = record.to_json();
    assert_eq!(object.len(), 8);
    assert_eq!(object.get("host"), Some(&Value::from("h\"q")));
    assert_eq!(object.get("bytes"), Some(&Value::from(4294967295u32)));
    let text = serialize_object(&object).unwrap();
    assert_eq!(
        String::from_utf8(text).unwrap(),
        r#"{"authuser":"a","bytes":4294967295,"host":"h\"q","ident":"i","request":"r\\","response":0,"timestamp":"t","timestamp_utc":"u"}"#
    );
}

#[test]
fn error_descriptions_and_messages() {
    assert_eq!(LogError::PatternMismatch.description(), "FAIL. unmatched pattern.");
    assert_eq!(LogError::PatternMismatch.message(), "FAIL. unmatched pattern.");
    let e = LogError::EncodingError("invalid utf-8 sequence of 1 bytes from index 3".to_string());
    assert_eq!(e.description(), "FAIL. invalid UTF-8.");
    assert_eq!(e.message(), "invalid utf-8 sequence of 1 bytes from index 3");
    let e = LogError::SerializationError("why".to_string());
    assert_eq!(e.description(), "FAIL. unserializable record.");
    assert_eq!(e.message(), "why");
    let e = LogError::TimestampError("input is out of range".to_string());
    assert_eq!(e.description(), "FAIL. unparsable timestamp.");
    assert_eq!(e.message(), "input is out of range");
    let e = LogError::NumericError("12a".to_string());
    assert_eq!(e.description(), "FAIL. invalid number.");
    assert_eq!(e.message(), "12a");
    let e = LogError::NumericError(String::new());
    assert_eq!(e.message(), "");
}

#[test]
fn message_of_a_failed_transformation_is_the_diagnostic_itself() {
    let line = r#"1.2.3.4 - - [14/Foo/2017:22:16:45 +09:00] "GET /" 200 1"#;
    let e = transform_data(&parser(), line.as_bytes().to_vec()).unwrap_err();
    assert_eq!(e.message(), "input contains invalid characters");
    let e = transform_data(&parser(), vec![0xff]).unwrap_err();
    assert_eq!(e.message(), "invalid utf-8 sequence of 1 bytes from index 0");
    let e = transform_data(&parser(), b"nothing".to_vec()).unwrap_err();
    assert_eq!(e.message(), "FAIL. unmatched pattern.");
}

#[test]
fn record_of_match_maps_no_match_to_pattern_mismatch() {
    assert_eq!(record_of_match(None), Err(LogError::PatternMismatch));
    assert_eq!(
        record_of_match(Some(fields(None, "200", "5"))),
        Err(LogError::TimestampError("timestamp is missing".to_string()))
    );
    let record = record_of_match(Some(fields(Some("01/Jan/1970:00:00:00 +0000"), "200", "5")));
    assert_eq!(record.unwrap().response, 200);
}

#[test]
fn decoded_line_hands_on_text_and_diagnostic() {
    assert_eq!(decoded_line(Ok("abc".to_string())), Ok("abc".to_string()));
    assert_eq!(
        decoded_line(Err("bad".to_string())),
        Err(LogError::EncodingError("bad".to_string()))
    );
    assert_eq!(decode_line(b"abc".to_vec()), Ok("abc".to_string()));
    assert_eq!(
        decode_line(vec![b'a', 0x80]),
        Err(LogError::EncodingError("invalid utf-8 sequence of 1 bytes from index 1".to_string()))
    );
}

#[test]
fn written_text_hands_on_bytes_and_diagnostic() {
    assert_eq!(written_text(Ok(b"{}".to_vec())), Ok(b"{}".to_vec()));
    assert_eq!(
        written_text(Err("bad".to_string())),
        Err(LogError::SerializationError("bad".to_string()))
    );
    assert_eq!(serialize_object(&serde_json::Map::new()), Ok(b"{}".to_vec()));
}
