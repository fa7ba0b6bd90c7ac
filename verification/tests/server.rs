use rust_book::server::{response, route, starts_with};

#[test]
fn front_page_is_served() {
    let found = route(b"GET / HTTP/1.1\r\nHost: localhost\r\n\r\n");
    assert_eq!(found.status, "200 OK");
    assert_eq!(found.filename, "index.html");
    assert_eq!(found.delay_secs, 0);
}

#[test]
fn slow_page_is_the_front_page_after_five_seconds() {
    let found = route(b"GET /sleep HTTP/1.1\r\n\r\n");
    assert_eq!(found.status, "200 OK");
    assert_eq!(found.filename, "index.html");
    assert_eq!(found.delay_secs, 5);
}

#[test]
fn anything_else_is_not_found() {
    for request in [
        &b"GET /other HTTP/1.1\r\n"[..],
        &b"POST / HTTP/1.1\r\n"[..],
        &b"GET / HTTP/1.1"[..],
        &b"get / http/1.1\r\n"[..],
        &b""[..],
        &[0u8; 512][..],
    ] {
        let found = route(request);
        assert_eq!(found.status, "404 NOT FOUND");
        assert_eq!(found.filename, "404.html");
        assert_eq!(found.delay_secs, 0);
    }
}

#[test]
fn request_is_read_from_a_padded_buffer() {
    let mut buffer = [0u8; 512];
    let line = b"GET / HTTP/1.1\r\n";
    buffer[..line.len()].copy_from_slice(line);
    assert_eq!(route(&buffer).filename, "index.html");
}

#[test]
fn prefix_is_compared_byte_by_byte() {
    assert!(starts_with(b"abc", b""));
    assert!(starts_with(b"abc", b"ab"));
    assert!(starts_with(b"abc", b"abc"));
    assert!(!starts_with(b"abc", b"abcd"));
    assert!(!starts_with(b"abc", b"b"));
    assert!(!starts_with(b"", b"a"));
    assert!(starts_with(b"", b""));
}

#[test]
fn response_carries_the_length_of_its_body() {
    assert_eq!(
        response("200 OK", "<h1>Hello!</h1>"),
        "HTTP/1.1 200 OK\r\nContent-Length: 15\r\n\r\n<h1>Hello!</h1>"
    );
    assert_eq!(response("404 NOT FOUND", ""), "HTTP/1.1 404 NOT FOUND\r\nContent-Length: 0\r\n\r\n");
}

#[test]
fn response_counts_bytes_not_characters() {
    assert_eq!(response("200 OK", "ñandú"), "HTTP/1.1 200 OK\r\nContent-Length: 7\r\n\r\nñandú");
}
