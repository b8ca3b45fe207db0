use xbim::authentication::AuthenticatedUser;
use xbim::http::CookieJar;
use xbim::routes::{dashboard, flutter_service_worker, github_logout, index};

#[test]
fn the_root_redirects_to_the_main_page() {
    assert_eq!(index().location, "https://xodium.org");
}

#[test]
fn the_dashboard_shows_the_token() {
    assert_eq!(
        dashboard(AuthenticatedUser("gho_abc".to_string())),
        "<h1>Welcome to your Dashboard!</h1><p>Your token is: gho_abc</p>"
    );
    assert_eq!(
        dashboard(AuthenticatedUser(String::new())),
        "<h1>Welcome to your Dashboard!</h1><p>Your token is: </p>"
    );
}

#[test]
fn signing_out_takes_the_token_away() {
    let mut cookies = CookieJar::new();
    cookies.add("theme", "dark");
    cookies.add("token", "gho_abc");
    cookies.add("Token", "kept");
    cookies.add("token", "gho_def");
    let redirect = github_logout(&mut cookies);
    assert_eq!(redirect.location, "/");
    assert_eq!(cookies.get("token"), None);
    assert_eq!(cookies.get("theme"), Some("dark"));
    assert_eq!(cookies.get("Token"), Some("kept"));
    assert_eq!(cookies.entries.len(), 2);

    let mut none = CookieJar::new();
    assert_eq!(github_logout(&mut none).location, "/");
    assert_eq!(none.entries.len(), 0);
}

#[test]
fn the_service_worker_gets_no_content() {
    assert_eq!(flutter_service_worker(None).code, 204);
    assert_eq!(flutter_service_worker(Some("42".to_string())).code, 204);
}
