//! Tests for the incremental stream parser and response assembly: framing,
//! trimming, the sentinel, payload parsing through the real JSON parser, and
//! the timing fields of assembled responses.

use speed_kings::stream::{nonstreaming_response, streaming_response, StreamParser};

fn feed_str(parser: &mut StreamParser, s: &str) {
    parser.feed(&s.as_bytes().to_vec());
}

#[test]
fn test_content_deltas_are_concatenated() {
    let mut parser = StreamParser::new();
    feed_str(&mut parser, "data: {\"choices\":[{\"delta\":{\"content\":\"Hel\"}}]}\n");
    feed_str(&mut parser, "data: {\"choices\":[{\"delta\":{\"content\":\"lo\"}}]}\n");
    assert_eq!(parser.text, "Hello");
    assert_eq!(parser.input_tokens, 0);
    assert_eq!(parser.output_tokens, 0);
    assert!(!parser.saw_done);
}

#[test]
fn test_split_chunks_are_buffered() {
    let mut parser = StreamParser::new();
    feed_str(&mut parser, "data: {\"choices\":[{\"delta\":{\"con");
    assert_eq!(parser.text, "");
    feed_str(&mut parser, "tent\":\"Hi\"}}]}\ndata: [DONE]\n");
    assert_eq!(parser.text, "Hi");
    assert!(parser.saw_done);
}

#[test]
fn test_usage_object_sets_token_counts() {
    let mut parser = StreamParser::new();
    feed_str(
        &mut parser,
        "data: {\"choices\":[],\"usage\":{\"prompt_tokens\":17,\"completion_tokens\":42}}\n",
    );
    assert_eq!(parser.input_tokens, 17);
    assert_eq!(parser.output_tokens, 42);
}

#[test]
fn test_multiple_choices_in_order() {
    let mut parser = StreamParser::new();
    feed_str(
        &mut parser,
        "data: {\"choices\":[{\"delta\":{\"content\":\"a\"}},{\"delta\":{}},{\"delta\":{\"content\":\"b\"}}]}\n",
    );
    assert_eq!(parser.text, "ab");
}

#[test]
fn test_done_sentinel_is_not_parsed_as_payload() {
    let mut parser = StreamParser::new();
    feed_str(&mut parser, "data: [DONE]\n");
    assert!(parser.saw_done);
    assert_eq!(parser.text, "");
}

#[test]
fn test_lines_without_prefix_are_skipped() {
    let mut parser = StreamParser::new();
    feed_str(&mut parser, ": a comment line\n\nevent: message\n");
    assert_eq!(parser.text, "");
    assert!(!parser.saw_done);
}

#[test]
fn test_malformed_json_line_is_skipped() {
    let mut parser = StreamParser::new();
    feed_str(&mut parser, "data: {not json}\n");
    feed_str(&mut parser, "data: {\"nochoices\":1}\n");
    feed_str(&mut parser, "data: {\"choices\":[{\"delta\":{\"content\":\"ok\"}}]}\n");
    assert_eq!(parser.text, "ok");
}

#[test]
fn test_crlf_lines_are_trimmed() {
    let mut parser = StreamParser::new();
    feed_str(&mut parser, "  data: {\"choices\":[{\"delta\":{\"content\":\"x\"}}]}\r\n");
    assert_eq!(parser.text, "x");
}

#[test]
fn test_streaming_response_fields() {
    let mut parser = StreamParser::new();
    feed_str(
        &mut parser,
        "data: {\"choices\":[{\"delta\":{\"content\":\"hey\"}}],\"usage\":{\"prompt_tokens\":3,\"completion_tokens\":1}}\n",
    );
    let r = streaming_response(&parser, 100, Some(250), 900);
    assert_eq!(r.text, "hey");
    assert_eq!(r.input_tokens, 3);
    assert_eq!(r.output_tokens, 1);
    assert_eq!(r.time_to_prompt_ms, 100);
    // 250ms at first chunk, minus 100ms prompt transmission
    assert_eq!(r.time_to_first_token_ms, 150);
    assert_eq!(r.total_latency_ms, 900);
    assert_eq!(r.model_load_time_ms, None);
}

#[test]
fn test_streaming_response_without_first_chunk() {
    let parser = StreamParser::new();
    let r = streaming_response(&parser, 100, None, 900);
    // no chunk ever arrived: the first-token time falls back to the total
    assert_eq!(r.time_to_first_token_ms, 800);
}

#[test]
fn test_streaming_response_saturates_at_zero() {
    let parser = StreamParser::new();
    let r = streaming_response(&parser, 100, Some(40), 900);
    assert_eq!(r.time_to_first_token_ms, 0);
}

#[test]
fn test_nonstreaming_response_approximates_ttft() {
    let r = nonstreaming_response("out".to_string(), 7, 9, 1_234_567_890, 80, 500);
    assert_eq!(r.text, "out");
    assert_eq!(r.input_tokens, 7);
    assert_eq!(r.output_tokens, 9);
    // documented limitation: TTFT is approximated by the prompt time
    assert_eq!(r.time_to_first_token_ms, 80);
    assert_eq!(r.total_latency_ms, 500);
    // 1_234_567_890 ns reported load becomes whole milliseconds
    assert_eq!(r.model_load_time_ms, Some(1234));
}

#[test]
fn test_nonstreaming_response_zero_load_means_absent() {
    let r = nonstreaming_response(String::new(), 0, 0, 0, 10, 10);
    assert_eq!(r.model_load_time_ms, None);
}
