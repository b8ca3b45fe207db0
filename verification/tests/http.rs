use xbim::fairing::Kind;
use xbim::http::{CookieJar, HeaderMap, Method, Request, Response, Status};

#[test]
fn header_names_match_without_regard_to_case() {
    let mut headers = HeaderMap::new();
    headers.add("Content-Type", "text/html");
    headers.add("X-Token", "one");
    headers.add("x-token", "two");
    assert!(headers.contains("content-type"));
    assert!(headers.contains("CONTENT-TYPE"));
    assert!(!headers.contains("Content-Typ"));
    assert!(!headers.contains("Content-Type "));
    assert!(!headers.contains(""));
    assert_eq!(headers.get_one("X-TOKEN"), Some("one"));
    assert_eq!(headers.get_one("X-Tok\u{212a}n"), None);
    assert_eq!(headers.len(), 3);
}

#[test]
fn only_ascii_letters_fold() {
    let mut headers = HeaderMap::new();
    headers.add("X-\u{c4}", "upper");
    assert!(headers.contains("x-\u{c4}"));
    assert!(!headers.contains("X-\u{e4}"));
    headers.add("X-[", "bracket");
    assert!(!headers.contains("X-{"));
    headers.add("X-@", "at");
    assert!(!headers.contains("X-`"));
}

#[test]
fn removing_and_replacing_headers() {
    let mut headers = HeaderMap::new();
    headers.add("A", "1");
    headers.add("B", "2");
    headers.add("a", "3");
    headers.add("C", "4");
    headers.remove("a");
    let names: Vec<&str> = headers.entries.iter().map(|h| h.name.as_str()).collect();
    assert_eq!(names, vec!["B", "C"]);

    headers.replace("b", "5");
    let lines: Vec<(&str, &str)> =
        headers.entries.iter().map(|h| (h.name.as_str(), h.value.as_str())).collect();
    assert_eq!(lines, vec![("C", "4"), ("b", "5")]);

    headers.remove("missing");
    assert_eq!(headers.len(), 2);
    headers.remove("c");
    headers.remove("B");
    assert_eq!(headers.len(), 0);
    headers.remove("B");
    assert_eq!(headers.len(), 0);
}

#[test]
fn cookie_names_match_exactly() {
    let mut cookies = CookieJar::new();
    cookies.add("session", "one");
    cookies.add("Session", "two");
    cookies.add("session", "three");
    assert_eq!(cookies.get("session"), Some("one"));
    assert_eq!(cookies.get("Session"), Some("two"));
    assert_eq!(cookies.get("SESSION"), None);
    cookies.remove("session");
    assert_eq!(cookies.get("session"), None);
    assert_eq!(cookies.get("Session"), Some("two"));
}

#[test]
fn requests_are_built_step_by_step() {
    let request = Request::new(Method::Put, "/models/1")
        .header("Accept", "*/*")
        .cookie("a", "1")
        .private_cookie("b", "2");
    assert_eq!(request.method, Method::Put);
    assert_eq!(request.uri, "/models/1");
    assert_eq!(request.client_ip, None);
    assert_eq!(request.headers.get_one("accept"), Some("*/*"));
    assert_eq!(request.cookies.get("a"), Some("1"));
    assert_eq!(request.cookies.get("b"), None);
    assert_eq!(request.private_cookies.get("b"), Some("2"));
    assert_eq!(request.request_id, None);
    assert_eq!(Request::get("/").method, Method::Get);
}

#[test]
fn responses_and_statuses() {
    let mut response = Response::new(Status::forbidden());
    assert_eq!(response.status().code, 403);
    assert!(response.body().is_empty());
    response.set_header("Retry-After", "1");
    response.set_header("retry-after", "2");
    assert_eq!(response.headers().len(), 1);
    assert_eq!(response.headers().get_one("Retry-After"), Some("2"));
    assert_eq!(Status::ok().code, 200);
    assert_eq!(Status::no_content().code, 204);
    assert_eq!(Status::unauthorized().code, 401);
    assert_eq!(Status::too_many_requests().code, 429);
    assert_eq!(Status::new(500), Status { code: 500 });
}

#[test]
fn phases_of_a_stage() {
    let both = Kind::request().or(Kind::response());
    assert!(both.is(Kind::request()));
    assert!(both.is(Kind::response()));
    assert!(both.is(both));
    assert!(Kind::request().is(Kind::request()));
    assert!(!Kind::request().is(Kind::response()));
    assert!(!Kind::response().is(both));
    assert!(Kind::response().is(Kind { request: false, response: false }));
}

#[test]
fn names_of_methods() {
    let names: Vec<&str> = [
        Method::Get,
        Method::Put,
        Method::Post,
        Method::Delete,
        Method::Options,
        Method::Head,
        Method::Trace,
        Method::Connect,
        Method::Patch,
    ]
    .iter()
    .map(|method| method.as_str())
    .collect();
    assert_eq!(
        names,
        vec!["GET", "PUT", "POST", "DELETE", "OPTIONS", "HEAD", "TRACE", "CONNECT", "PATCH"]
    );
}
