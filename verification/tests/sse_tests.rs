use friday::sse::{chunk_token, first_found, parse_sse_chunk, parse_sse_text, sse_payloads};

#[test]
fn reads_the_delta_content() {
    let chunk = b"data: {\"choices\":[{\"delta\":{\"content\":\"Hel\"}}]}\n\n";
    assert_eq!(parse_sse_chunk(chunk), Some("Hel".to_string()));
}

#[test]
fn done_marker_gives_nothing() {
    assert_eq!(parse_sse_chunk(b"data: [DONE]\n\n"), None);
}

#[test]
fn empty_content_is_skipped_for_the_next_line() {
    let chunk = "data: {\"choices\":[{\"delta\":{\"content\":\"\"}}]}\ndata: {\"choices\":[{\"delta\":{\"content\":\"lo\"}}]}\n";
    assert_eq!(parse_sse_chunk(chunk.as_bytes()), Some("lo".to_string()));
}

#[test]
fn first_non_empty_piece_wins() {
    let chunk = "data: {\"choices\":[{\"delta\":{\"content\":\"a\"}}]}\ndata: {\"choices\":[{\"delta\":{\"content\":\"b\"}}]}\n";
    assert_eq!(parse_sse_chunk(chunk.as_bytes()), Some("a".to_string()));
}

#[test]
fn invalid_json_and_other_lines_are_ignored() {
    let chunk = ": keep-alive\nevent: x\ndata: {not json\ndata: {\"choices\":[{\"delta\":{\"role\":\"assistant\"}}]}\ndata: {\"choices\":[{\"delta\":{\"content\":7}}]}\n";
    assert_eq!(parse_sse_chunk(chunk.as_bytes()), None);
}

#[test]
fn repeated_data_markers_are_all_removed() {
    let chunk = "data: data: {\"choices\":[{\"delta\":{\"content\":\"x\"}}]}";
    assert_eq!(parse_sse_chunk(chunk.as_bytes()), Some("x".to_string()));
}

#[test]
fn crlf_lines_are_read() {
    let chunk = "data: [DONE]\r\ndata: {\"choices\":[{\"delta\":{\"content\":\"y\"}}]}\r\n";
    assert_eq!(parse_sse_chunk(chunk.as_bytes()), Some("y".to_string()));
}

#[test]
fn invalid_utf8_is_replaced_not_fatal() {
    let mut chunk = vec![0xff, 0xfe, b'\n'];
    chunk.extend_from_slice(b"data: {\"choices\":[{\"delta\":{\"content\":\"ok\"}}]}");
    assert_eq!(parse_sse_chunk(&chunk), Some("ok".to_string()));
    let mut inside = b"data: {\"choices\":[{\"delta\":{\"content\":\"a".to_vec();
    inside.push(0xff);
    inside.extend_from_slice(b"b\"}}]}");
    assert_eq!(parse_sse_chunk(&inside), Some("a\u{fffd}b".to_string()));
}

#[test]
fn non_ascii_content_is_kept() {
    let chunk = "data: {\"choices\":[{\"delta\":{\"content\":\"\u{e9}t\u{e9} \u{2728}\"}}]}";
    assert_eq!(parse_sse_chunk(chunk.as_bytes()), Some("\u{e9}t\u{e9} \u{2728}".to_string()));
}

#[test]
fn empty_chunk_gives_nothing() {
    assert_eq!(parse_sse_chunk(b""), None);
    assert_eq!(parse_sse_text(""), None);
}

#[test]
fn payloads_are_the_data_lines() {
    let text = "data: one\nid: 3\ndata: [DONE]\ndata:two\ndata: data: three\r\n\ndata: ";
    assert_eq!(sse_payloads(text), vec!["one", "three", ""]);
}

#[test]
fn first_found_skips_missing_and_empty_texts() {
    assert_eq!(first_found(&vec![]), None);
    assert_eq!(
        first_found(&vec![None, Some(String::new()), Some("Hi".to_string()), Some("x".to_string())]),
        Some("Hi".to_string())
    );
    assert_eq!(first_found(&vec![None, Some(String::new())]), None);
}

#[test]
fn chunk_token_drops_failed_items() {
    assert_eq!(chunk_token(None), None);
    let bytes = b"data: {\"choices\":[{\"delta\":{\"content\":\"z\"}}]}";
    assert_eq!(chunk_token(Some(&bytes[..])), Some("z".to_string()));
    assert_eq!(chunk_token(Some(&b"data: [DONE]"[..])), None);
}

#[test]
fn cut_json_gives_nothing() {
    assert_eq!(parse_sse_text("data: {\"choices\":[{\"delta\":{\"content\":\"Hi"), None);
}
