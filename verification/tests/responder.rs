use server::content::ContentStore;
use server::handler::{finish_response, plan_response, Outcome};
use server::request::RequestLineReader;
use server::response::{build_response, Status};
use server::route::{bytes_eq, copy_bytes, Router};
use server::ServerConfig;

fn bytes(s: &str) -> Vec<u8> {
    s.as_bytes().to_vec()
}

/// Feed a whole byte stream to a fresh reader, split at line feeds the
/// way a buffered reader would hand it over (the stream closes after
/// `data`), and return the extracted request line.
fn read_request_line(data: &[u8]) -> Option<Vec<u8>> {
    let mut reader = RequestLineReader::new();
    let mut rest = data;
    while reader.wants_more() {
        let split = match rest.iter().position(|b| *b == b'\n') {
            Some(i) => i + 1,
            None => rest.len(),
        };
        let (chunk, tail) = rest.split_at(split);
        rest = tail;
        if reader.feed_chunk(&chunk.to_vec()) {
            break;
        }
    }
    reader.into_line()
}

fn hello_router() -> (Router, ContentStore) {
    let mut router = Router::new(bytes("404"));
    router.register(bytes("GET /hello HTTP/1.1"), Status::Success, bytes("hello"), 0);
    let mut store = ContentStore::new();
    store.insert(bytes("hello"), bytes("<html>Hi</html>"));
    store.insert(bytes("404"), bytes("<default 404 body>"));
    (router, store)
}

fn response_of(router: &Router, store: &ContentStore, line: Option<Vec<u8>>) -> Vec<u8> {
    match plan_response(router, store, &line) {
        Outcome::Respond { response, .. } => response,
        Outcome::CloseWithoutResponse => panic!("content key did not resolve"),
    }
}

#[test]
fn hello_scenario_exact_response() {
    let (router, store) = hello_router();
    let line = read_request_line(b"GET /hello HTTP/1.1\r\n\r\n");
    let response = response_of(&router, &store, line);
    assert_eq!(response, bytes("HTTP/1.1 200 OK\r\n\r\n<html>Hi</html>"));
}

#[test]
fn missing_scenario_default_response() {
    let (router, store) = hello_router();
    let line = read_request_line(b"GET /missing HTTP/1.1\r\n\r\n");
    let response = response_of(&router, &store, line);
    assert_eq!(response, bytes("HTTP/1.1 404 NOT FOUND\r\n\r\n<default 404 body>"));
}

#[test]
fn absent_line_default_response() {
    let (router, store) = hello_router();
    let response = response_of(&router, &store, None);
    assert_eq!(response, bytes("HTTP/1.1 404 NOT FOUND\r\n\r\n<default 404 body>"));
}

#[test]
fn stream_closed_mid_line_yields_no_line() {
    // The first line arrives without its line feed and the stream
    // closes: no request line, so the default response is served.
    let (router, store) = hello_router();
    let line = read_request_line(b"GET /hello HTTP/1.1");
    assert_eq!(line, None);
    let response = response_of(&router, &store, line);
    assert_eq!(response, bytes("HTTP/1.1 404 NOT FOUND\r\n\r\n<default 404 body>"));
}

#[test]
fn empty_stream_yields_no_line() {
    assert_eq!(read_request_line(b""), None);
    assert_eq!(read_request_line(b"\r\n"), None);
}

#[test]
fn stream_closed_after_complete_line_keeps_line() {
    // The line arrived complete; the stream closing in place of the
    // blank line still terminates the header section.
    let line = read_request_line(b"GET /hello HTTP/1.1\r\n");
    assert_eq!(line, Some(bytes("GET /hello HTTP/1.1")));
}

#[test]
fn header_lines_are_read_and_ignored() {
    let line = read_request_line(b"GET /hello HTTP/1.1\r\nHost: example\r\nAccept: */*\r\n\r\n");
    assert_eq!(line, Some(bytes("GET /hello HTTP/1.1")));
}

#[test]
fn request_line_is_trimmed() {
    let line = read_request_line(b"  GET /hello HTTP/1.1 \t\r\n\r\n");
    assert_eq!(line, Some(bytes("GET /hello HTTP/1.1")));
}

#[test]
fn reader_stops_at_blank_line() {
    let mut reader = RequestLineReader::new();
    assert!(reader.wants_more());
    assert!(!reader.feed_chunk(&bytes("GET /hello HTTP/1.1\r\n")));
    assert!(reader.feed_chunk(&bytes("\r\n")));
    assert!(!reader.wants_more());
    assert_eq!(reader.into_line(), Some(bytes("GET /hello HTTP/1.1")));
}

#[test]
fn repeated_requests_are_byte_identical() {
    let (router, store) = hello_router();
    let first = response_of(&router, &store, read_request_line(b"GET /hello HTTP/1.1\r\n\r\n"));
    let second = response_of(&router, &store, read_request_line(b"GET /hello HTTP/1.1\r\n\r\n"));
    assert_eq!(first, second);
}

#[test]
fn matching_is_exact_and_case_sensitive() {
    let (router, store) = hello_router();
    let got = response_of(&router, &store, Some(bytes("get /hello http/1.1")));
    assert_eq!(got, bytes("HTTP/1.1 404 NOT FOUND\r\n\r\n<default 404 body>"));
    let got = response_of(&router, &store, Some(bytes("GET /hello HTTP/1.0")));
    assert_eq!(got, bytes("HTTP/1.1 404 NOT FOUND\r\n\r\n<default 404 body>"));
}

#[test]
fn earliest_registered_route_wins() {
    let mut router = Router::new(bytes("404"));
    router.register(bytes("GET / HTTP/1.1"), Status::Success, bytes("first"), 0);
    router.register(bytes("GET / HTTP/1.1"), Status::Success, bytes("second"), 0);
    let d = router.route(&Some(bytes("GET / HTTP/1.1")));
    assert_eq!(d.key, bytes("first"));
}

#[test]
fn delayed_route_decision_carries_configured_delay() {
    let router = Router::with_default_routes(30_000);
    let d = router.route(&Some(bytes("GET /sleep HTTP/1.1")));
    assert_eq!(d.delay_ms, 30_000);
    assert_eq!(d.key, bytes("html/sleep.html"));
    let d = router.route(&Some(bytes("GET /hello HTTP/1.1")));
    assert_eq!(d.delay_ms, 0);
    assert_eq!(d.key, bytes("html/hello.html"));
    let d = router.route(&None);
    assert_eq!(d.delay_ms, 0);
    assert_eq!(d.key, bytes("html/404.html"));
}

#[test]
fn delay_survives_into_the_outcome() {
    let mut store = ContentStore::new();
    store.insert(bytes("html/sleep.html"), bytes("<html>Sleep</html>"));
    let router = Router::with_default_routes(10_000);
    let d = router.route(&Some(bytes("GET /sleep HTTP/1.1")));
    match finish_response(&store, d) {
        Outcome::Respond { delay_ms, response } => {
            assert_eq!(delay_ms, 10_000);
            assert_eq!(response, bytes("HTTP/1.1 200 OK\r\n\r\n<html>Sleep</html>"));
        }
        Outcome::CloseWithoutResponse => panic!("content key did not resolve"),
    }
}

#[test]
fn unresolvable_content_key_closes_without_response() {
    let mut router = Router::new(bytes("404"));
    router.register(bytes("GET /hello HTTP/1.1"), Status::Success, bytes("dangling"), 0);
    let mut store = ContentStore::new();
    store.insert(bytes("404"), bytes("<default 404 body>"));
    let outcome = plan_response(&router, &store, &Some(bytes("GET /hello HTTP/1.1")));
    assert!(matches!(outcome, Outcome::CloseWithoutResponse));
}

#[test]
fn build_response_concatenates_status_blank_body() {
    let r = build_response(Status::Success, &bytes("abc"));
    assert_eq!(r, bytes("HTTP/1.1 200 OK\r\n\r\nabc"));
    let r = build_response(Status::NotFound, &bytes(""));
    assert_eq!(r, bytes("HTTP/1.1 404 NOT FOUND\r\n\r\n"));
}

#[test]
fn store_lookup_finds_earliest_entry() {
    let mut store = ContentStore::new();
    store.insert(bytes("k"), bytes("one"));
    store.insert(bytes("k"), bytes("two"));
    store.insert(bytes("other"), bytes("three"));
    assert_eq!(store.lookup(&bytes("k")), Some(bytes("one")));
    assert_eq!(store.lookup(&bytes("other")), Some(bytes("three")));
    assert_eq!(store.lookup(&bytes("absent")), None);
}

#[test]
fn byte_helpers_behave() {
    assert!(bytes_eq(&bytes("abc"), &bytes("abc")));
    assert!(!bytes_eq(&bytes("abc"), &bytes("abd")));
    assert!(!bytes_eq(&bytes("abc"), &bytes("ab")));
    assert_eq!(copy_bytes(&bytes("abc")), bytes("abc"));
}

#[test]
fn server_config_holds_host_and_port() {
    let config = ServerConfig { host: String::from("127.0.0.1"), port: 7878 };
    assert_eq!(config.host, "127.0.0.1");
    assert_eq!(config.port, 7878);
}
