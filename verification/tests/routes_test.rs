use crane_webserver::{
    handle_request, Handler, HttpStatus, Query, Response, ResponseBuilder, Router, ServerConfig,
};

/// A handler for the scenarios below: a fixed text response, a response
/// echoing the matched path, or a dump of the decoded query.
enum TestHandler {
    Text(&'static str, &'static str),
    EchoPath,
    QueryDump,
}

impl Handler for TestHandler {
    fn handle(&self, path: &str, query: &Query) -> Response {
        match self {
            TestHandler::Text(content_type, body) => ResponseBuilder::new()
                .status(HttpStatus::OK)
                .header("Content-Type", content_type)
                .body(body)
                .build(),
            TestHandler::EchoPath => ResponseBuilder::new()
                .status(HttpStatus::OK)
                .header("Content-Type", "text/plain")
                .body(path)
                .build(),
            TestHandler::QueryDump => {
                let body = query
                    .entries()
                    .iter()
                    .map(|(k, v)| format!("{k}={v:?}"))
                    .collect::<Vec<_>>()
                    .join("\n");
                ResponseBuilder::new()
                    .status(HttpStatus::OK)
                    .header("Content-Type", "text/plain")
                    .body(&body)
                    .build()
            }
        }
    }
}

fn body_of(wire: &str) -> &str {
    wire.split_once("\r\n\r\n").unwrap().1
}

fn status_line_of(wire: &str) -> &str {
    wire.split_once("\r\n").unwrap().0
}

#[test]
fn default_route() {
    let router =
        Router::new().register("/", TestHandler::Text("text/plain", "Hello, World!"));
    let response = handle_request(&router, b"GET / HTTP/1.1\r\nHost: localhost\r\n\r\n").unwrap();
    assert_eq!(status_line_of(&response), "HTTP/1.1 200 OK");
    assert_eq!(body_of(&response), "Hello, World!");
}

#[test]
fn routes_and_query() {
    let router = Router::new().register("/get/data", TestHandler::QueryDump);
    let response =
        handle_request(&router, b"GET /get/data?a=b HTTP/1.1\r\nHost: localhost\r\n\r\n").unwrap();
    assert_eq!(status_line_of(&response), "HTTP/1.1 200 OK");
    assert_eq!(body_of(&response), r#"a=["b"]"#);
}

#[test]
fn each_path_reaches_its_own_handler() {
    let router = Router::new()
        .register("/one", TestHandler::Text("text/plain", "first"))
        .register("/two", TestHandler::Text("text/plain", "second"));
    let one = handle_request(&router, b"GET /one HTTP/1.1\r\n").unwrap();
    let two = handle_request(&router, b"GET /two HTTP/1.1\r\n").unwrap();
    assert_eq!(body_of(&one), "first");
    assert_eq!(body_of(&two), "second");
}

#[test]
fn exact_match_only() {
    let router = Router::new().register("/foo", TestHandler::Text("text/html", "<h1>Bar</h1>"));
    let hit = handle_request(&router, b"GET /foo HTTP/1.1\r\n").unwrap();
    assert_eq!(body_of(&hit), "<h1>Bar</h1>");
    assert!(hit.contains("\r\nContent-Type: text/html\r\n"));
    // No prefix matching, no trailing-slash normalization, and an
    // unregistered path without a default yields no response at all.
    assert!(handle_request(&router, b"GET /foo/ HTTP/1.1\r\n").is_none());
    assert!(handle_request(&router, b"GET /fo HTTP/1.1\r\n").is_none());
    assert!(handle_request(&router, b"GET /bar HTTP/1.1\r\n").is_none());
}

#[test]
fn first_registered_duplicate_wins() {
    let router = Router::new()
        .register("/dup", TestHandler::Text("text/plain", "first"))
        .register("/dup", TestHandler::Text("text/plain", "second"));
    let response = handle_request(&router, b"GET /dup HTTP/1.1\r\n").unwrap();
    assert_eq!(body_of(&response), "first");
}

#[test]
fn default_handler_sees_the_unmatched_path() {
    let router = Router::new()
        .register("/known", TestHandler::Text("text/plain", "known"))
        .set_default(TestHandler::EchoPath);
    let response = handle_request(&router, b"GET /unknown HTTP/1.1\r\n").unwrap();
    assert_eq!(body_of(&response), "/unknown");
}

#[test]
fn miss_without_default_writes_nothing() {
    let router = Router::new().register("/", TestHandler::Text("text/plain", "root"));
    assert!(handle_request(&router, b"GET /absent HTTP/1.1\r\n").is_none());
}

#[test]
fn invalid_utf8_target_closes_the_connection() {
    let router = Router::new().set_default(TestHandler::EchoPath);
    let buffer: Vec<u8> = vec![
        b'G', b'E', b'T', b' ', b'/', 0xFF, 0xFE, b' ', b'H', b'T', b'T', b'P', b'\r', b'\n',
    ];
    assert!(handle_request(&router, &buffer).is_none());
}

#[test]
fn server_config_defaults_and_setters() {
    let config = ServerConfig::new(
        Router::new().register("/", TestHandler::Text("text/plain", "ok")),
    );
    assert_eq!(config.worker_count(), 4);
    assert_eq!(config.read_timeout_ms(), None);
    assert_eq!(config.buffer_size(), 4096);

    let config = config.workers(2).read_timeout(250).read_buffer(1024);
    assert_eq!(config.worker_count(), 2);
    assert_eq!(config.read_timeout_ms(), Some(250));
    assert_eq!(config.buffer_size(), 1024);

    let response = handle_request(config.router(), b"GET / HTTP/1.1\r\n").unwrap();
    assert_eq!(body_of(&response), "ok");
}
