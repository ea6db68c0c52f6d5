use hopcoder_shell::codec::{decode_stream, encode_frame, encode_payload, FrameReader, ReadStep};
use hopcoder_shell::json::decode_body;
use serde_json::Value;

fn value(text: &str) -> Value {
    serde_json::from_str(text).unwrap()
}

fn framed(body: &[u8]) -> Vec<u8> {
    encode_frame(body)
}

#[test]
fn encode_frame_writes_header_blank_line_and_body() {
    assert_eq!(encode_frame(b"{}"), b"Content-Length: 2\r\n\r\n{}".to_vec());
}

#[test]
fn encode_frame_of_empty_body_declares_zero() {
    assert_eq!(encode_frame(b""), b"Content-Length: 0\r\n\r\n".to_vec());
}

#[test]
fn encode_frame_writes_every_digit_of_the_length() {
    let body = vec![b' '; 1205];
    let frame = encode_frame(&body);
    assert!(frame.starts_with(b"Content-Length: 1205\r\n\r\n"));
    assert_eq!(frame.len(), 24 + 1205);
}

#[test]
fn frame_header_counts_bytes_not_characters() {
    let body = "{\"a\":\"é\"}";
    assert_eq!(body.chars().count(), 9);
    let frame = encode_frame(body.as_bytes());
    assert_eq!(frame, b"Content-Length: 10\r\n\r\n{\"a\":\"\xc3\xa9\"}".to_vec());
}

#[test]
fn encode_payload_prints_compact_json() {
    let payload = value("{ \"method\" : \"initialize\", \"id\" : 1 }");
    let frame = encode_payload(&payload);
    assert_eq!(frame, b"Content-Length: 30\r\n\r\n{\"id\":1,\"method\":\"initialize\"}".to_vec());
}

#[test]
fn round_trip_gives_the_payload_back() {
    let payload = value("{\"jsonrpc\":\"2.0\",\"id\":7,\"result\":[1,true,null,\"x\"]}");
    assert_eq!(decode_stream(&encode_payload(&payload)), vec![payload]);
}

#[test]
fn round_trip_with_multi_byte_characters() {
    let payload = value("{\"text\":\"héllo wörld — 日本語 🚀\"}");
    let frame = encode_payload(&payload);
    let text = payload.to_string();
    assert!(text.len() > text.chars().count());
    let header = format!("Content-Length: {}\r\n\r\n", text.len());
    assert!(frame.starts_with(header.as_bytes()));
    assert_eq!(decode_stream(&frame), vec![payload]);
}

#[test]
fn decode_reads_frames_in_order() {
    let mut stream = framed(b"1");
    stream.extend(framed(b"\"two\""));
    stream.extend(framed(b"[3]"));
    assert_eq!(decode_stream(&stream), vec![value("1"), value("\"two\""), value("[3]")]);
}

#[test]
fn decode_skips_a_body_that_is_not_json() {
    let mut stream = framed(b"{\"n\":1}");
    stream.extend(framed(b"{not json"));
    stream.extend(framed(b"{\"n\":2}"));
    assert_eq!(decode_stream(&stream), vec![value("{\"n\":1}"), value("{\"n\":2}")]);
}

#[test]
fn decode_skips_a_body_that_is_not_utf8() {
    let mut stream = framed(b"\"\xff\"");
    stream.extend(framed(b"true"));
    assert_eq!(decode_stream(&stream), vec![value("true")]);
}

#[test]
fn decode_of_nothing_is_nothing() {
    assert_eq!(decode_stream(b""), Vec::<Value>::new());
}

#[test]
fn decode_ignores_unknown_headers() {
    let stream = b"Content-Type: application/json\r\nContent-Length: 4\r\nX-Other: 1\r\n\r\nnull";
    assert_eq!(decode_stream(stream), vec![Value::Null]);
}

#[test]
fn decode_matches_the_header_name_in_any_case() {
    assert_eq!(decode_stream(b"content-length: 4\r\n\r\nnull"), vec![Value::Null]);
    assert_eq!(decode_stream(b"CONTENT-LENGTH: 4\r\n\r\nnull"), vec![Value::Null]);
}

#[test]
fn decode_takes_the_last_length_of_a_block() {
    let stream = b"Content-Length: 1\r\nContent-Length: 4\r\n\r\ntrue";
    assert_eq!(decode_stream(stream), vec![Value::Bool(true)]);
}

#[test]
fn decode_keeps_the_length_when_a_later_header_has_no_number() {
    let stream = b"Content-Length: 4\r\nContent-Length: many\r\n\r\ntrue";
    assert_eq!(decode_stream(stream), vec![Value::Bool(true)]);
}

#[test]
fn decode_reads_no_body_without_a_length() {
    let stream = b"X-Other: 1\r\n\r\nContent-Length: 1\r\n\r\n7";
    assert_eq!(decode_stream(stream), vec![value("7")]);
}

#[test]
fn decode_reads_no_body_for_length_zero() {
    let mut stream = b"Content-Length: 0\r\n\r\n".to_vec();
    stream.extend(framed(b"5"));
    assert_eq!(decode_stream(&stream), vec![value("5")]);
}

#[test]
fn decode_forgets_the_length_after_a_body() {
    let stream = b"Content-Length: 1\r\n\r\n1\r\n2";
    assert_eq!(decode_stream(stream), vec![value("1")]);
}

#[test]
fn decode_needs_carriage_return_and_line_feed_to_end_a_block() {
    let stream = b"Content-Length: 1\r\n\n1\r\n\r\n2";
    assert_eq!(decode_stream(stream), vec![value("2")]);
}

#[test]
fn decode_stops_at_a_body_that_is_cut_short() {
    let mut stream = framed(b"true");
    stream.extend_from_slice(b"Content-Length: 10\r\n\r\n{\"a\":");
    assert_eq!(decode_stream(&stream), vec![Value::Bool(true)]);
}

#[test]
fn decode_stops_at_a_line_that_is_not_utf8() {
    let mut stream = framed(b"1");
    stream.extend_from_slice(b"X-Bad: \xff\r\n");
    stream.extend(framed(b"2"));
    assert_eq!(decode_stream(&stream), vec![value("1")]);
}

#[test]
fn decode_reads_the_body_as_bytes_whatever_they_hold() {
    let stream = b"Content-Length: 12\r\n\r\n\"a\\r\\n\\r\\nb\" \nContent-Length: 1\r\n\r\n3";
    assert_eq!(decode_stream(stream), vec![value("\"a\\r\\n\\r\\nb\""), value("3")]);
}

#[test]
fn decode_body_reads_json() {
    assert_eq!(decode_body(b"{\"k\":[1,2]}"), Some(value("{\"k\":[1,2]}")));
    assert_eq!(decode_body(b"{\"k\":"), None);
    assert_eq!(decode_body(b""), None);
    assert_eq!(decode_body(b"\xc3"), None);
}

#[test]
fn reader_walks_through_a_frame() {
    let mut reader = FrameReader::new();
    assert_eq!(reader.on_line(b"Content-Type: x\r\n"), ReadStep::Line);
    assert_eq!(reader.on_line(b"Content-Length: 17\r\n"), ReadStep::Line);
    assert_eq!(reader.on_line(b"\r\n"), ReadStep::Body(17));
    assert_eq!(reader.on_line(b"\r\n"), ReadStep::Line);
    assert_eq!(reader.on_line(b""), ReadStep::End);
}

#[test]
fn reader_ends_at_a_line_that_is_not_utf8() {
    let mut reader = FrameReader::new();
    assert_eq!(reader.on_line(b"Content-Length: 3\r\n"), ReadStep::Line);
    assert_eq!(reader.on_line(b"\xfe\r\n"), ReadStep::End);
}

#[test]
fn reader_takes_a_last_line_without_line_feed() {
    let mut reader = FrameReader::new();
    assert_eq!(reader.on_line(b"Content-Length: 3"), ReadStep::Line);
    assert_eq!(reader.on_line(b"\r\n"), ReadStep::Body(3));
}
