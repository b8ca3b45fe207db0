use std::collections::HashSet;
use xbim::http::{Request, Response, Status};
use xbim::identification::{IdGuard, RIG, RRIM};

fn test_endpoint() -> Response {
    Response::with_body(Status::ok(), b"Hello, world!".to_vec())
}

fn get(path: &str) -> Response {
    let mut request = Request::get(path);
    RRIM.on_request(&mut request);
    let mut response = test_endpoint();
    RRIM.on_response(&request, &mut response);
    response
}

fn guard_endpoint(id_guard: RIG) -> Response {
    Response::with_body(Status::ok(), format!("Request ID: {}", id_guard.0).into_bytes())
}

fn id_guard_endpoint(ig: IdGuard) -> Response {
    let id = uuid::Uuid::from_u128(ig.id);
    Response::with_body(Status::ok(), format!("Request ID: {}", id).into_bytes())
}

#[test]
fn test_request_id_header() {
    let response = get("/test");

    assert_eq!(response.status(), Status::ok());
    assert!(response.headers().get_one("X-Request-ID").is_some());

    let request_id = response.headers().get_one("X-Request-ID").unwrap();
    assert!(!request_id.is_empty());
    assert_eq!(request_id.len(), 36);
}

#[test]
fn test_multiple_requests_different_ids() {
    let response1 = get("/test");
    let response2 = get("/test");

    let id1 = response1.headers().get_one("X-Request-ID").unwrap();
    let id2 = response2.headers().get_one("X-Request-ID").unwrap();

    assert_ne!(id1, id2, "Different requests should have different IDs");
}

#[test]
fn identification_test_id_guard() {
    let mut request = Request::get("/guard");
    RRIM.on_request(&mut request);
    let mut response = guard_endpoint(RIG::from_request(&request));
    RRIM.on_response(&request, &mut response);

    assert_eq!(response.status(), Status::ok());

    let body = String::from_utf8(response.into_bytes()).unwrap();
    assert!(body.starts_with("Request ID: "));

    let request_id = body.strip_prefix("Request ID: ").unwrap();
    assert_eq!(request_id.len(), 36);
}

#[test]
fn id_test_id_guard() {
    let mut request = Request::get("/guard");
    RRIM.on_request(&mut request);
    let mut response = id_guard_endpoint(IdGuard::from_request(&request));
    RRIM.on_response(&request, &mut response);

    assert_eq!(response.status(), Status::ok());

    let body = String::from_utf8(response.into_bytes()).unwrap();
    assert!(body.starts_with("Request ID: "));

    let request_id = body.strip_prefix("Request ID: ").unwrap();
    assert_eq!(request_id.len(), 36);
    assert_eq!(response_id(&request), request_id);
}

fn response_id(request: &Request) -> String {
    let mut response = Response::new(Status::ok());
    RRIM.on_response(request, &mut response);
    response.headers().get_one("X-Request-ID").unwrap().to_string()
}

#[test]
fn identifiers_have_the_hyphenated_shape() {
    let mut request = Request::get("/");
    RRIM.on_request(&mut request);
    let id = request.request_id.clone().unwrap();
    assert_eq!(id.len(), 36);
    for (i, c) in id.chars().enumerate() {
        if i == 8 || i == 13 || i == 18 || i == 23 {
            assert_eq!(c, '-');
        } else {
            assert!(c.is_ascii_digit() || ('a'..='f').contains(&c));
        }
    }
}

#[test]
fn ten_thousand_identifiers_are_distinct() {
    let mut seen = HashSet::new();
    for _ in 0..10_000 {
        let mut request = Request::get("/");
        RRIM.on_request(&mut request);
        let echoed = response_id(&request);
        assert_eq!(RIG::from_request(&request).0, echoed);
        assert!(seen.insert(echoed));
    }
    assert_eq!(seen.len(), 10_000);
}

#[test]
fn an_identifier_is_assigned_once() {
    let mut request = Request::get("/");
    RRIM.on_request(&mut request);
    let first = request.request_id.clone();
    RRIM.on_request(&mut request);
    assert_eq!(request.request_id, first);

    RRIM.assign(&mut request, "other".to_string());
    assert_eq!(request.request_id, first);

    let mut bare = Request::get("/");
    RRIM.assign(&mut bare, "given".to_string());
    assert_eq!(bare.request_id, Some("given".to_string()));
}

#[test]
fn the_echo_replaces_an_identifier_header_of_the_handler() {
    let mut request = Request::get("/");
    RRIM.assign(&mut request, "0188f5f3-aaaa-4bbb-8ccc-000000000001".to_string());
    let mut response = Response::new(Status::ok());
    response.set_header("x-request-id", "made-up");
    response.set_header("Content-Type", "text/plain");
    RRIM.on_response(&request, &mut response);
    assert_eq!(
        response.headers().get_one("X-Request-ID"),
        Some("0188f5f3-aaaa-4bbb-8ccc-000000000001")
    );
    assert_eq!(response.headers().get_one("Content-Type"), Some("text/plain"));
    assert_eq!(response.headers().len(), 2);
}

#[test]
fn without_an_identifier_the_guards_fall_back() {
    let request = Request::get("/");
    assert_eq!(RIG::from_request(&request).0, "");
    assert_eq!(IdGuard::from_request(&request).id, 0);
    assert_eq!(response_id(&request), "");
}

#[test]
fn the_id_guard_reads_the_value_of_the_identifier() {
    let mut request = Request::get("/");
    RRIM.assign(&mut request, "a1a2a3a4-b1b2-c1c2-d1d2-d3d4d5d6d7d8".to_string());
    assert_eq!(IdGuard::from_request(&request).id, 0xa1a2a3a4b1b2c1c2d1d2d3d4d5d6d7d8);

    let mut other = Request::get("/");
    RRIM.assign(&mut other, "not an identifier".to_string());
    assert_eq!(IdGuard::from_request(&other).id, 0);

    assert_eq!(IdGuard::from_parsed(Some(7)).id, 7);
    assert_eq!(IdGuard::from_parsed(None).id, 0);
}

#[test]
fn identifier_info() {
    let info = RRIM.info();
    assert_eq!(info.name, "Request ID");
    assert!(info.kind.request && info.kind.response);
}

#[test]
fn the_identifier_of_given_random_bytes() {
    let bytes = [70, 235, 208, 238, 14, 109, 67, 201, 185, 13, 204, 195, 90, 145, 63, 62];
    assert_eq!(RRIM.id_from(Some(bytes)), "46ebd0ee-0e6d-43c9-b90d-ccc35a913f3e");
    // Version and variant are set whatever the bytes.
    assert_eq!(RRIM.id_from(Some([0; 16])), "00000000-0000-4000-8000-000000000000");
    assert_eq!(RRIM.id_from(Some([255; 16])), "ffffffff-ffff-4fff-bfff-ffffffffffff");
}

#[test]
fn without_randomness_the_identifier_is_all_zeros() {
    assert_eq!(RRIM.id_from(None), "00000000-0000-0000-0000-000000000000");
    let mut request = Request::get("/");
    RRIM.assign(&mut request, RRIM.id_from(None));
    assert_eq!(IdGuard::from_request(&request).id, 0);
    assert_eq!(response_id(&request), "00000000-0000-0000-0000-000000000000");
}

#[test]
fn fresh_identifiers_are_random_ones() {
    let id = RRIM.fresh();
    let value = uuid::Uuid::parse_str(&id).unwrap();
    assert_eq!(value.get_version_num(), 4);
    assert_ne!(RRIM.fresh(), id);
}

#[test]
fn different_bytes_give_different_identifiers() {
    let mut bytes = [7u8; 16];
    let first = RRIM.id_from(Some(bytes));
    bytes[15] = 8;
    let second = RRIM.id_from(Some(bytes));
    assert_ne!(first, second);
    assert_eq!(first, "07070707-0707-4707-8707-070707070707");
    assert_eq!(second, "07070707-0707-4707-8707-070707070708");
    // The bits that version and variant take do not show.
    let mut masked = [7u8; 16];
    masked[6] = 0xf7;
    masked[8] = 0xc7;
    assert_eq!(RRIM.id_from(Some(masked)), first);
}
