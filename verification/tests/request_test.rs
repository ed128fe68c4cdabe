use crane_webserver::request::requested_target;

#[test]
fn second_token_is_the_target() {
    let buf = b"GET /foo HTTP/1.1\r\nHost: localhost\r\n\r\n";
    assert_eq!(requested_target(buf), b"/foo".to_vec());
}

#[test]
fn empty_buffer_falls_back_to_root() {
    assert_eq!(requested_target(b""), b"/".to_vec());
}

#[test]
fn missing_target_falls_back_to_root() {
    assert_eq!(requested_target(b"GET\r\n"), b"/".to_vec());
    assert_eq!(requested_target(b"GET \r\n"), b"/".to_vec());
    assert_eq!(requested_target(b"\r\n"), b"/".to_vec());
}

#[test]
fn only_the_first_line_is_read() {
    let buf = b"GET /first HTTP/1.1\nGET /second HTTP/1.1\n";
    assert_eq!(requested_target(buf), b"/first".to_vec());
}

#[test]
fn trailing_zero_padding_is_harmless() {
    let mut buf = b"GET /x?a=b HTTP/1.1\r\n".to_vec();
    buf.resize(4096, 0);
    assert_eq!(requested_target(&buf), b"/x?a=b".to_vec());
}

#[test]
fn missing_newline_still_yields_target() {
    assert_eq!(requested_target(b"GET /x HTTP/1.1"), b"/x".to_vec());
    assert_eq!(requested_target(b"GET /y"), b"/y".to_vec());
}

#[test]
fn leading_whitespace_is_skipped() {
    assert_eq!(requested_target(b"  GET  /spaced  HTTP/1.1\n"), b"/spaced".to_vec());
}
