use ollama_lite::http::{
    decode_lossy, encode_chunk, encode_line_chunk, forward_body_head, forward_stream_head, header_end_offset,
    json_response_head, last_chunk, ndjson_stream_head, parse_request_head, pass_through_plan,
    plain_response_head, preflight_response, read_request, route_request, Route,
};

#[test]
fn request_head_is_read() {
    let text = "post /api/chat HTTP/1.1\r\nHost: x\r\nContent-Length: 42\r\n\r\n{}";
    let h = parse_request_head(text).unwrap();
    assert_eq!(h.method, "POST");
    assert_eq!(h.path, "/api/chat");
    assert_eq!(h.content_length, 42);
}

#[test]
fn last_content_length_wins_and_bad_values_are_zero() {
    let h = parse_request_head("GET / HTTP/1.1\r\ncontent-length: 5\r\nCONTENT-LENGTH:  +7 \r\n").unwrap();
    assert_eq!(h.content_length, 7);
    let h = parse_request_head("GET / HTTP/1.1\r\nContent-Length: abc\r\n").unwrap();
    assert_eq!(h.content_length, 0);
    let h = parse_request_head("GET / HTTP/1.1\r\nContent-Length: 99999999999999999999999\r\n").unwrap();
    assert_eq!(h.content_length, 0);
    let h = parse_request_head("GET / HTTP/1.1\r\nContent-Length: 3:4\r\n").unwrap();
    assert_eq!(h.content_length, 3);
    let h = parse_request_head("GET /x").unwrap();
    assert_eq!(h.content_length, 0);
}

#[test]
fn malformed_request_lines_are_dropped() {
    assert!(parse_request_head("").is_none());
    assert!(parse_request_head("GET\r\nHost: y\r\n").is_none());
    assert!(parse_request_head("\r\nGET / HTTP/1.1").is_none());
}

#[test]
fn body_offset_counts_bytes() {
    assert_eq!(header_end_offset("GET / HTTP/1.1\r\nA: b\r\n\r\nbody"), Some(24));
    assert_eq!(header_end_offset("GET /é HTTP/1.1\r\n\r\n"), Some(20));
    assert_eq!(header_end_offset("no blank line\r\n"), None);
}

#[test]
fn received_request_body_start() {
    let bytes = b"POST /api/pull HTTP/1.1\r\nContent-Length: 2\r\n\r\n{}";
    let r = read_request(bytes).unwrap();
    assert_eq!(r.head.method, "POST");
    assert_eq!(&bytes[r.body_start..], b"{}");
    let r = read_request(b"GET / HTTP/1.1\r\n").unwrap();
    assert_eq!(r.body_start, 16);
    assert!(read_request(b"").is_none());
    assert_eq!(decode_lossy(b"ok\xff"), "ok\u{fffd}");
}

#[test]
fn routes() {
    let cases = [
        ("OPTIONS", "/anything", Route::Preflight),
        ("GET", "/", Route::Heartbeat),
        ("HEAD", "/", Route::Heartbeat),
        ("GET", "/api/version", Route::Version),
        ("HEAD", "/api/tags", Route::Tags),
        ("GET", "/api/ps", Route::Ps),
        ("POST", "/api/show", Route::Show),
        ("POST", "/api/chat", Route::Chat),
        ("POST", "/api/generate", Route::Generate),
        ("POST", "/api/pull", Route::Pull),
        ("DELETE", "/api/delete", Route::Delete),
        ("POST", "/api/copy", Route::Copy),
        ("POST", "/api/embed", Route::Embed),
        ("POST", "/api/embeddings", Route::EmbedLegacy),
        ("GET", "/v1/models", Route::OpenAiModels),
        ("POST", "/v1/chat/completions", Route::ForwardPost),
        ("GET", "/v1/other", Route::ForwardGet),
        ("PUT", "/v1/x", Route::NotFound),
        ("GET", "/api/chat", Route::NotFound),
        ("HEAD", "/api/ps", Route::NotFound),
    ];
    for (m, p, r) in cases {
        assert!(route_request(m, p) == r, "{} {}", m, p);
    }
}

#[test]
fn response_heads() {
    assert_eq!(
        json_response_head(404, 17),
        "HTTP/1.1 404 OK\r\nContent-Type: application/json; charset=utf-8\r\nContent-Length: 17\r\nAccess-Control-Allow-Origin: *\r\nAccess-Control-Allow-Methods: GET, POST, PUT, DELETE, OPTIONS\r\nAccess-Control-Allow-Headers: *\r\n\r\n"
    );
    assert_eq!(
        plain_response_head(200, 18),
        "HTTP/1.1 200 OK\r\nContent-Type: text/plain; charset=utf-8\r\nContent-Length: 18\r\nAccess-Control-Allow-Origin: *\r\n\r\n"
    );
    assert!(preflight_response().starts_with("HTTP/1.1 204 No Content\r\n"));
    assert!(ndjson_stream_head().contains("Transfer-Encoding: chunked"));
    assert_eq!(
        forward_stream_head(201, "text/event-stream"),
        "HTTP/1.1 201 OK\r\nContent-Type: text/event-stream\r\nTransfer-Encoding: chunked\r\nAccess-Control-Allow-Origin: *\r\n\r\n"
    );
    assert_eq!(
        forward_body_head(500, "application/json", 3),
        "HTTP/1.1 500 OK\r\nContent-Type: application/json\r\nContent-Length: 3\r\nAccess-Control-Allow-Origin: *\r\n\r\n"
    );
}

#[test]
fn pass_through() {
    let p = pass_through_plan(None, false);
    assert_eq!(p.content_type, "application/json");
    assert!(!p.streaming);
    let p = pass_through_plan(Some("text/event-stream; charset=utf-8"), false);
    assert!(p.streaming);
    assert!(pass_through_plan(Some("application/json"), true).streaming);
}

#[test]
fn chunk_framing() {
    assert_eq!(encode_chunk(b""), b"".to_vec());
    assert_eq!(encode_chunk(b"hello"), b"5\r\nhello\r\n".to_vec());
    let data = vec![b'x'; 300];
    let mut expected = b"12c\r\n".to_vec();
    expected.extend_from_slice(&data);
    expected.extend_from_slice(b"\r\n");
    assert_eq!(encode_chunk(&data), expected);
    let line = "é".repeat(100);
    let mut expected = b"C8\r\n".to_vec();
    expected.extend_from_slice(line.as_bytes());
    expected.extend_from_slice(b"\r\n");
    assert_eq!(encode_line_chunk(&line), expected);
    assert_eq!(encode_line_chunk(""), b"0\r\n\r\n".to_vec());
    assert_eq!(last_chunk(), b"0\r\n\r\n".to_vec());
}
