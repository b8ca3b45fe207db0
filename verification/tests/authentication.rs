use xbim::authentication::{
    check, set_csrf_cookie, Auth, AuthGuard, AuthenticatedUser, CsrfToken, GitHubUser, RAG,
};
use xbim::config::{Config, API_KEY};
use xbim::http::{CookieJar, Method, Request, Response, Status};

fn protected_endpoint(_auth: RAG) -> Response {
    Response::with_body(Status::ok(), b"Protected content".to_vec())
}

fn request_with_key(config: &Config, key: &str) -> Response {
    let request = Request::get("/protected").header("X-API-Key", key);
    match RAG::from_request(&request, config) {
        Ok(auth) => protected_endpoint(auth),
        Err(status) => Response::new(status),
    }
}

#[test]
fn test_api_key_authentication() {
    let config = Config::default();
    let api_key = config.api_key.clone();

    // Test valid key
    let valid_response = request_with_key(&config, &api_key);
    assert_eq!(valid_response.status(), Status::ok());
    assert_eq!(String::from_utf8(valid_response.into_bytes()).unwrap(), "Protected content");

    // Test invalid key
    let invalid_response = request_with_key(&config, "invalid-key");
    assert_eq!(invalid_response.status(), Status::unauthorized());
}

#[test]
fn a_missing_key_is_unauthorized() {
    let config = Config::new();
    let request = Request::get("/protected");
    assert_eq!(RAG::from_request(&request, &config).err(), Some(Status::unauthorized()));
    assert_eq!(Auth::from_request(&request).err(), Some(Status::unauthorized()));
    assert_eq!(Status::unauthorized().code, 401);
}

#[test]
fn the_key_is_compared_character_for_character() {
    let mut config = Config::new();
    config.api_key = "s3cret".to_string();
    let exact = Request::get("/").header("x-api-key", "s3cret");
    assert!(RAG::from_request(&exact, &config).is_ok());
    for wrong in ["S3cret", "s3cret ", "s3cre", "", "s3cret\n"] {
        let request = Request::get("/").header("X-API-Key", wrong);
        assert!(RAG::from_request(&request, &config).is_err());
    }
    // The first header of the name is the one that counts.
    let twice = Request::get("/").header("X-API-Key", "nope").header("X-API-Key", "s3cret");
    assert!(RAG::from_request(&twice, &config).is_err());
}

#[test]
fn credential_check() {
    assert!(check(Some("abc"), "abc"));
    assert!(!check(Some("abd"), "abc"));
    assert!(!check(Some(""), "abc"));
    assert!(check(Some(""), ""));
    assert!(!check(None, "abc"));
    assert!(!check(None, ""));
}

#[test]
fn the_built_in_key() {
    assert_eq!(API_KEY, "xBIM-api-key-2025");
    let request = Request::get("/").header("X-API-Key", "xBIM-api-key-2025");
    assert!(Auth::from_request(&request).is_ok());
    let other = Request::get("/").header("X-API-Key", "xbim-api-key-2025");
    assert_eq!(Auth::from_request(&other).err(), Some(Status::unauthorized()));
}

fn text_field(value: &serde_json::Value, key: &str) -> Option<Option<String>> {
    match value.get(key) {
        None => Some(None),
        Some(serde_json::Value::Null) => Some(None),
        Some(serde_json::Value::String(text)) => Some(Some(text.clone())),
        Some(_) => None,
    }
}

fn read_account(text: &str) -> Option<GitHubUser> {
    let value: serde_json::Value = serde_json::from_str(text).ok()?;
    Some(GitHubUser {
        id: value.get("id")?.as_u64()?,
        login: value.get("login")?.as_str()?.to_string(),
        name: text_field(&value, "name")?,
        email: text_field(&value, "email")?,
        avatar_url: text_field(&value, "avatar_url")?,
    })
}

fn protected(request: &Request) -> Status {
    let account = AuthGuard::session(request).and_then(read_account);
    match AuthGuard::from_request(request, account) {
        Ok(_) => Status::ok(),
        Err(status) => status,
    }
}

#[test]
fn test_auth_guard_success() {
    let mut user = serde_json::Map::new();
    user.insert("login".to_string(), serde_json::Value::from("testuser"));
    user.insert("id".to_string(), serde_json::Value::from(12345));
    user.insert("name".to_string(), serde_json::Value::from("Test User"));
    let user_json = serde_json::Value::Object(user).to_string();

    let request = Request::get("/protected").private_cookie("user_session", &user_json);

    assert_eq!(protected(&request), Status::ok());
}

#[test]
fn test_auth_guard_unauthorized_no_cookie() {
    let request = Request::get("/protected");

    assert_eq!(protected(&request), Status::unauthorized());
}

#[test]
fn test_auth_guard_invalid_cookie_value() {
    let request = Request::get("/protected").private_cookie("user_session", "not_valid_json");

    assert_eq!(protected(&request), Status::unauthorized());
}

#[test]
fn a_session_sent_in_the_clear_does_not_count() {
    let request = Request::get("/protected").cookie("user_session", "{\"id\":1,\"login\":\"a\"}");
    assert_eq!(AuthGuard::session(&request), None);
    let account = read_account("{\"id\":1,\"login\":\"a\"}");
    assert!(account.is_some());
    assert!(AuthGuard::from_request(&request, account).is_err());
}

#[test]
fn the_signed_in_caller_is_known_by_the_token() {
    let request = Request::get("/dashboard").private_cookie("token", "gho_abc");
    assert_eq!(AuthenticatedUser::from_request(&request).unwrap().0, "gho_abc");

    let plain = Request::get("/dashboard").cookie("token", "gho_abc");
    assert_eq!(AuthenticatedUser::from_request(&plain).err(), Some(Status::unauthorized()));
}

#[test]
fn safe_methods_need_no_forgery_token() {
    for method in [Method::Get, Method::Head, Method::Options] {
        let request = Request::new(method, "/");
        assert_eq!(CsrfToken::from_request(&request).unwrap().0, "");
    }
}

#[test]
fn other_methods_need_header_and_cookie_to_agree() {
    for method in
        [Method::Post, Method::Put, Method::Delete, Method::Patch, Method::Trace, Method::Connect]
    {
        let agreed = Request::new(method, "/")
            .header("X-CSRF-Token", "t0ken")
            .cookie("csrf_token", "t0ken");
        assert_eq!(CsrfToken::from_request(&agreed).unwrap().0, "t0ken");

        let differ = Request::new(method, "/")
            .header("X-CSRF-Token", "t0ken")
            .cookie("csrf_token", "other");
        assert_eq!(CsrfToken::from_request(&differ).err(), Some(Status::forbidden()));

        let no_cookie = Request::new(method, "/").header("X-CSRF-Token", "t0ken");
        assert_eq!(CsrfToken::from_request(&no_cookie).err(), Some(Status::forbidden()));

        let no_header = Request::new(method, "/").cookie("csrf_token", "t0ken");
        assert_eq!(CsrfToken::from_request(&no_header).err(), Some(Status::forbidden()));

        let bare = Request::new(method, "/");
        assert_eq!(CsrfToken::from_request(&bare).err(), Some(Status::forbidden()));
    }
}

#[test]
fn a_token_against_forgery_is_handed_out() {
    let mut cookies = CookieJar::new();
    cookies.add("theme", "dark");
    set_csrf_cookie(&mut cookies);
    assert_eq!(cookies.entries.len(), 2);
    assert_eq!(cookies.get("theme"), Some("dark"));
    let token = cookies.get("csrf_token").unwrap().to_string();
    assert_eq!(token.len(), 36);

    let request = Request::new(Method::Post, "/submit")
        .header("X-CSRF-Token", &token)
        .cookie("csrf_token", &token);
    assert_eq!(CsrfToken::from_request(&request).unwrap().0, token);
}
