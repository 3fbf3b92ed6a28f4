use rust_web_server::http::{response, route};

#[test]
fn root_request_gets_greeting() {
    let r = route("GET / HTTP/1.1");
    assert_eq!(r.status_line, "HTTP/1.1 200 OK");
    assert_eq!(r.filename, "html/hello.html");
    assert!(!r.slow);
}

#[test]
fn sleep_request_is_slow_greeting() {
    let r = route("GET /sleep HTTP/1.1");
    assert_eq!(r.status_line, "HTTP/1.1 200 OK");
    assert_eq!(r.filename, "html/hello.html");
    assert!(r.slow);
}

#[test]
fn other_requests_get_not_found() {
    for line in ["GET /other HTTP/1.1", "", "GET / HTTP/1.0", "get / HTTP/1.1"] {
        let r = route(line);
        assert_eq!(r.status_line, "HTTP/1.1 404 NOT FOUND");
        assert_eq!(r.filename, "html/404.html");
        assert!(!r.slow);
    }
}

#[test]
fn response_has_length_header() {
    let r = response("HTTP/1.1 200 OK", "hello");
    assert_eq!(r, b"HTTP/1.1 200 OK\r\nContent-Length: 5\r\n\r\nhello".to_vec());
}

#[test]
fn response_with_empty_body() {
    let r = response("HTTP/1.1 404 NOT FOUND", "");
    assert_eq!(r, b"HTTP/1.1 404 NOT FOUND\r\nContent-Length: 0\r\n\r\n".to_vec());
}

#[test]
fn response_length_counts_bytes_and_digits() {
    let body = "é".repeat(60);
    let r = response("S", &body);
    let expected = format!("S\r\nContent-Length: 120\r\n\r\n{body}");
    assert_eq!(r, expected.into_bytes());
}
