use steam_cm_sync::http::{decimal_string, http_response};

#[test]
fn response_carries_exact_content_length() {
    let out = http_response("hello");
    assert_eq!(out, "HTTP/1.1 200 OK\r\nContent-Length: 5\r\n\r\nhello");
}

#[test]
fn empty_body_has_length_zero() {
    let out = http_response("");
    assert_eq!(out, "HTTP/1.1 200 OK\r\nContent-Length: 0\r\n\r\n");
}

#[test]
fn content_length_counts_bytes() {
    let body = "a".repeat(1234);
    let out = http_response(&body);
    assert_eq!(
        out,
        format!("HTTP/1.1 200 OK\r\nContent-Length: 1234\r\n\r\n{}", body)
    );
}

#[test]
fn decimal_rendering_is_exact() {
    assert_eq!(decimal_string(0), "0");
    assert_eq!(decimal_string(7), "7");
    assert_eq!(decimal_string(10), "10");
    assert_eq!(decimal_string(27017), "27017");
    assert_eq!(decimal_string(u64::MAX), "18446744073709551615");
}
