use xbim::fairing::Kind;
use xbim::http::{ClientAddr, Method, Request, Response, Status};
use xbim::logging::{LogRecord, Logger, RequestLogger};

fn test_endpoint() -> Response {
    Response::with_body(Status::ok(), b"Test successful".to_vec())
}

#[test]
fn test_logger_functionality() {
    let logger = Logger;

    // Test logger info
    let info = logger.info();
    assert_eq!(info.name, "Request and Response Logging");
    assert!(info.kind.is(Kind::request()));
    assert!(info.kind.is(Kind::response()));

    // Test fairing doesn't interfere with requests
    let request = Request::get("/test");
    logger.on_request(&request);
    let response = test_endpoint();
    logger.on_response(&request, &response);
    assert_eq!(response.status(), Status::ok());
    assert_eq!(String::from_utf8(response.into_bytes()).unwrap(), "Test successful");
}

#[test]
fn test_logger_fairing_doesnt_interfere_with_requests() {
    let request = Request::get("/test");
    RequestLogger.on_request(&request);
    let response = test_endpoint();
    RequestLogger.on_response(&request, &response);

    assert_eq!(response.status(), Status::ok());
    assert_eq!(String::from_utf8(response.into_bytes()).unwrap(), "Test successful");
}

#[test]
fn test_logger_info() {
    let logger = RequestLogger;
    let info = logger.info();

    assert_eq!(info.name, "Request Logger");
    assert!(info.kind.is(Kind::request()));
    assert!(info.kind.is(Kind::response()));
}

#[test]
fn the_record_of_a_request() {
    let request = Request::new(Method::Post, "/models?page=2").remote(ClientAddr::v4(10, 1, 2, 3));
    match Logger.incoming(&request, "2025-01-01 00:00:00 UTC".to_string()) {
        LogRecord::Incoming { timestamp, method, uri, client } => {
            assert_eq!(timestamp, "2025-01-01 00:00:00 UTC");
            assert_eq!(method, Method::Post);
            assert_eq!(uri, "/models?page=2");
            assert_eq!(client, Some(ClientAddr::V4(0x0a01_0203)));
        },
        other => panic!("{:?}", other),
    }
    match Logger.on_request(&Request::get("/")) {
        LogRecord::Incoming { timestamp, method, uri, client } => {
            assert!(timestamp.ends_with(" UTC"));
            assert_eq!(method, Method::Get);
            assert_eq!(uri, "/");
            assert_eq!(client, None);
        },
        other => panic!("{:?}", other),
    }
}

#[test]
fn the_record_of_a_response() {
    let request = Request::new(Method::Delete, "/models/7");
    let response = Response::new(Status::new(404));
    match Logger.outgoing(&request, &response, "2025-01-01 00:00:01 UTC".to_string()) {
        LogRecord::Outgoing { timestamp, method, uri, status } => {
            assert_eq!(timestamp, "2025-01-01 00:00:01 UTC");
            assert_eq!(method, Method::Delete);
            assert_eq!(uri, "/models/7");
            assert_eq!(status.code, 404);
        },
        other => panic!("{:?}", other),
    }
    match RequestLogger.on_response(&request, &response) {
        LogRecord::Outgoing { timestamp, method, uri, status } => {
            assert!(timestamp.starts_with("20"));
            assert_eq!(method, Method::Delete);
            assert_eq!(uri, "/models/7");
            assert_eq!(status, Status::new(404));
        },
        other => panic!("{:?}", other),
    }
}

#[test]
fn the_timestamp_of_a_reading() {
    assert_eq!(Logger.timestamp(Some((1431648000, 0))), "2015-05-15 00:00:00 UTC");
    assert_eq!(Logger.timestamp(Some((0, 1))), "1970-01-01 00:00:00.000000001 UTC");
    assert_eq!(Logger.timestamp(Some((86_399, 500_000_000))), "1970-01-01 23:59:59.500 UTC");
}

#[test]
fn without_a_reading_the_timestamp_is_empty() {
    assert_eq!(Logger.timestamp(None), "");
    assert_eq!(Logger.timestamp(Some((u64::MAX, 0))), "");
    assert_eq!(Logger.timestamp(Some((i64::MAX as u64, 0))), "");
    assert_eq!(Logger.timestamp(Some((i64::MAX as u64 + 1, 0))), "");
    // Nanoseconds that make no time of day.
    assert_eq!(Logger.timestamp(Some((0, 2_000_000_000))), "");
}
