use yaoscope::stream::should_flush_chunk;
use yaoscope::stream::sse_data_payload;
use yaoscope::stream::CHAT_CHUNK_MIN_BYTES;

#[test]
fn data_lines_yield_their_payload() {
    assert_eq!(sse_data_payload("data: {\"x\":1}"), Some("{\"x\":1}".to_string()));
    assert_eq!(sse_data_payload("data: "), Some("".to_string()));
}

#[test]
fn other_lines_yield_nothing() {
    assert_eq!(sse_data_payload("data:"), None);
    assert_eq!(sse_data_payload("event: ping"), None);
    assert_eq!(sse_data_payload("xdata: y"), None);
    assert_eq!(sse_data_payload(""), None);
}

#[test]
fn chunks_flush_at_the_minimum_or_at_the_end() {
    assert!(should_flush_chunk(CHAT_CHUNK_MIN_BYTES, false));
    assert!(should_flush_chunk(CHAT_CHUNK_MIN_BYTES + 1, false));
    assert!(!should_flush_chunk(CHAT_CHUNK_MIN_BYTES - 1, false));
    assert!(should_flush_chunk(0, true));
}
