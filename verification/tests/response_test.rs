use crane_webserver::{HttpStatus, ResponseBuilder};

#[test]
fn builder_defaults_to_404() {
    let response = ResponseBuilder::new().build();
    assert_eq!(response.to_http_string(), "HTTP/1.1 404 Not Found\r\n\r\n\r\n");
}

#[test]
fn response_round_trip() {
    let response = ResponseBuilder::new()
        .status(HttpStatus::OK)
        .header("Content-Type", "text/plain")
        .body("Hello, World!")
        .build();
    let wire = response.to_http_string();
    assert_eq!(
        wire,
        "HTTP/1.1 200 OK\r\nContent-Type: text/plain\r\n\r\nHello, World!"
    );

    // Decode the wire form again, as any HTTP client would.
    let (head, body) = wire.split_once("\r\n\r\n").unwrap();
    let mut lines = head.split("\r\n");
    let status_line = lines.next().unwrap();
    assert_eq!(status_line, "HTTP/1.1 200 OK");
    assert_eq!(lines.next().unwrap(), "Content-Type: text/plain");
    assert_eq!(body, "Hello, World!");
}

#[test]
fn headers_keep_registration_order() {
    let response = ResponseBuilder::new()
        .status(HttpStatus::OK)
        .header("A", "1")
        .header("B", "2")
        .header("A", "3")
        .body("x")
        .build();
    assert_eq!(
        response.to_http_string(),
        "HTTP/1.1 200 OK\r\nA: 1\r\nB: 2\r\nA: 3\r\n\r\nx"
    );
}

#[test]
fn status_strings() {
    assert_eq!(HttpStatus::OK.get_string(), "200 OK");
    assert_eq!(HttpStatus::Not_Found.get_string(), "404 Not Found");
    assert_eq!(HttpStatus::Im_A_Teapot.get_string(), "418 Im A Teapot");
    assert_eq!(
        HttpStatus::Network_Authentication_Required.get_string(),
        "511 Network Authentication Required"
    );
}

#[test]
fn status_codes() {
    assert_eq!(HttpStatus::Continue.code(), 100);
    assert_eq!(HttpStatus::OK.code(), 200);
    assert_eq!(HttpStatus::Not_Found.code(), 404);
    assert_eq!(HttpStatus::Internal_Server_Error.code(), 500);
}
