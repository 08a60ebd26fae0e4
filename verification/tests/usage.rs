use doodleiq::usage::{
    event_data, has_bytes, request_body_with_usage, token_usage, trim_sse_buffer, usage_from_json,
    usage_from_sse_buffer, StreamMeter, TokenUsage, SSE_BUFFER_KEEP,
};
use doodleiq::json::Json;
use serde_json::Value;

fn usage(input_tokens: u64, output_tokens: u64, total_tokens: u64) -> TokenUsage {
    TokenUsage { input_tokens, output_tokens, total_tokens }
}

#[test]
fn enables_stream_usage() {
    let body = request_body_with_usage(br#"{"stream":true}"#.to_vec(), "/v1/chat/completions");
    let payload: Value = serde_json::from_slice(&body).unwrap();
    assert_eq!(payload["stream_options"]["include_usage"], true);
}

#[test]
fn leaves_other_streaming_endpoints_unchanged() {
    let original = br#"{"stream":true}"#.to_vec();
    let body = request_body_with_usage(original.clone(), "/v1/responses");
    assert_eq!(body, original);
}

#[test]
fn reads_openai_usage() {
    let usage = usage_from_json(
        br#"{"usage":{"prompt_tokens":12,"completion_tokens":5,"total_tokens":17}}"#,
    )
    .unwrap();
    assert_eq!(
        usage,
        TokenUsage {
            input_tokens: 12,
            output_tokens: 5,
            total_tokens: 17
        }
    );
}

#[test]
fn reads_stream_usage() {
    let event = b"data: {\"choices\":[],\"usage\":{\"prompt_tokens\":9,\"completion_tokens\":4,\"total_tokens\":13}}\n\n";
    assert_eq!(usage_from_sse_buffer(event).unwrap().total_tokens, 13);
}

#[test]
fn sse_buffer_without_usage_returns_none() {
    let event = b"data: {\"choices\":[{\"delta\":{\"content\":\"hello\"}}]}\n\n";
    assert!(usage_from_sse_buffer(event).is_none());
}

#[test]
fn a_streaming_chat_keeps_everything_else() {
    let sent = request_body_with_usage(
        br#"{"model":"m","stream":true,"temperature":0.5,"stream_options":{"a":1},"n":-3}"#.to_vec(),
        "/v1/chat/completions",
    );
    let payload: Value = serde_json::from_slice(&sent).unwrap();
    assert_eq!(payload["model"], "m");
    assert_eq!(payload["stream"], true);
    assert_eq!(payload["temperature"].as_f64(), Some(0.5));
    assert_eq!(payload["n"].as_i64(), Some(-3));
    assert_eq!(payload["stream_options"]["a"], 1);
    assert_eq!(payload["stream_options"]["include_usage"], true);
    assert_eq!(payload.as_object().unwrap().len(), 5);
}

#[test]
fn stream_options_that_are_no_object_give_way() {
    for options in ["null", "7", "\"x\"", "[1]", "true"] {
        let body = format!("{{\"stream\":true,\"stream_options\":{options},\"n\":1}}");
        let sent = request_body_with_usage(body.into_bytes(), "/v1/chat/completions");
        assert_eq!(
            sent,
            br#"{"n":1,"stream":true,"stream_options":{"include_usage":true}}"#.to_vec()
        );
    }
}

#[test]
fn usage_that_was_declined_is_asked_for() {
    let sent = request_body_with_usage(
        br#"{"stream":true,"stream_options":{"include_usage":false}}"#.to_vec(),
        "/v1/chat/completions",
    );
    let payload: Value = serde_json::from_slice(&sent).unwrap();
    assert_eq!(payload["stream_options"]["include_usage"], true);
}

#[test]
fn bodies_that_do_not_stream_are_sent_as_they_came() {
    for body in [
        &br#"{ "stream" : false }"#[..],
        br#"{ "stream" : "true" }"#,
        br#"{ "model" : "m" }"#,
        b"not json",
        b"[true]",
        b"",
    ] {
        assert_eq!(request_body_with_usage(body.to_vec(), "/v1/chat/completions"), body);
    }
}

#[test]
fn asking_twice_is_asking_once() {
    let once = request_body_with_usage(br#"{"stream":true}"#.to_vec(), "/v1/chat/completions");
    let twice = request_body_with_usage(once.clone(), "/v1/chat/completions");
    assert_eq!(once, twice);
}

#[test]
fn a_missing_total_is_the_sum() {
    let found = usage_from_json(br#"{"usage":{"input_tokens":3,"output_tokens":4}}"#);
    assert_eq!(found, Some(usage(3, 4, 7)));
    let found = usage_from_json(
        br#"{"usage":{"prompt_tokens":18446744073709551615,"output_tokens":4,"total_tokens":null}}"#,
    );
    assert_eq!(found, Some(usage(u64::MAX, 4, u64::MAX)));
}

#[test]
fn the_first_name_counts_before_the_second() {
    let payload = Json::parse(
        br#"{"usage":{"prompt_tokens":1,"input_tokens":2,"completion_tokens":3,"output_tokens":4}}"#,
    )
    .unwrap();
    assert_eq!(token_usage(&payload), Some(usage(1, 3, 4)));
    // A first name with something else under it hides the second.
    assert_eq!(
        usage_from_json(br#"{"usage":{"prompt_tokens":"x","input_tokens":2,"output_tokens":4}}"#),
        None
    );
}

#[test]
fn documents_without_usage_report_none() {
    for body in [
        &b"{}"[..],
        br#"{"usage":{}}"#,
        br#"{"usage":{"prompt_tokens":1}}"#,
        br#"{"usage":{"prompt_tokens":-1,"completion_tokens":1}}"#,
        br#"{"usage":{"prompt_tokens":1.5,"completion_tokens":1}}"#,
        b"usage",
    ] {
        assert_eq!(usage_from_json(body), None);
    }
}

#[test]
fn event_lines_carry_data() {
    assert_eq!(event_data("data: {\"a\":1} "), Some("{\"a\":1}"));
    assert_eq!(event_data("data:x"), Some("x"));
    assert_eq!(event_data("data: [DONE]"), None);
    assert_eq!(event_data("data:   "), None);
    assert_eq!(event_data("event: ping"), None);
    assert_eq!(event_data(" data: x"), None);
}

#[test]
fn usage_is_found_among_other_lines() {
    let stream = b"event: ping\r\ndata: [DONE]\r\n\r\ndata: {\"usage\":null}\r\ndata: {\"usage\":{\"prompt_tokens\":1,\"completion_tokens\":2}}\r\ndata: {\"usage\":{\"prompt_tokens\":9,\"completion_tokens\":9}}";
    assert_eq!(usage_from_sse_buffer(stream), Some(usage(1, 2, 3)));
}

#[test]
fn a_buffer_that_is_not_utf8_reports_none() {
    let mut stream = b"data: {\"usage\":{\"prompt_tokens\":1,\"completion_tokens\":2}}\n".to_vec();
    assert!(usage_from_sse_buffer(&stream).is_some());
    stream.push(0xff);
    assert_eq!(usage_from_sse_buffer(&stream), None);
}

#[test]
fn bytes_are_searched() {
    assert!(has_bytes(b"abcabd", b"abd"));
    assert!(has_bytes(b"abc", b""));
    assert!(!has_bytes(b"ab", b"abc"));
    assert!(!has_bytes(b"abcabc", b"abd"));
}

#[test]
fn a_buffer_keeps_its_last_bytes() {
    let mut buffer: Vec<u8> = (0..SSE_BUFFER_KEEP + 3).map(|i| (i % 251) as u8).collect();
    let expected = buffer[3..].to_vec();
    trim_sse_buffer(&mut buffer);
    assert_eq!(buffer, expected);
    assert_eq!(SSE_BUFFER_KEEP, 64 * 1024);
    trim_sse_buffer(&mut buffer);
    assert_eq!(buffer, expected);
}

#[test]
fn a_stream_is_reported_once_however_it_is_cut() {
    let stream = b"data: {\"choices\":[]}\n\ndata: {\"usage\":{\"prompt_tokens\":5,\"completion_tokens\":6}}\n\ndata: {\"usage\":{\"prompt_tokens\":7,\"completion_tokens\":8}}\n\ndata: [DONE]\n\n";
    for size in [1, 2, 7, 50, 1000] {
        let mut meter = StreamMeter::new();
        let mut reports = Vec::new();
        for chunk in stream.chunks(size) {
            reports.extend(meter.observe(chunk));
        }
        assert_eq!(reports, vec![usage(5, 6, 11)]);
        assert!(meter.recorded);
        assert_eq!(meter.buffer, stream);
    }
}

#[test]
fn a_long_stream_is_still_metered() {
    let mut meter = StreamMeter::new();
    let filler = vec![b'x'; 40_000];
    for _ in 0..4 {
        assert_eq!(meter.observe(&filler), None);
    }
    assert_eq!(meter.buffer.len(), SSE_BUFFER_KEEP);
    let event = b"\ndata: {\"usage\":{\"prompt_tokens\":5,\"completion_tokens\":6}}\n\n";
    assert_eq!(meter.observe(event), Some(usage(5, 6, 11)));
    assert_eq!(meter.observe(event), None);
}
