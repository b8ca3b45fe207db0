//! The handlers of the routes that need no outside service.

use vstd::prelude::*;
use vstd::string::StringExecFns;
use crate::authentication::AuthenticatedUser;
use crate::http::{cookies_without, CookieJar, Status};

verus! {

/// A response that sends the caller on to another address.
#[derive(Clone, Debug)]
pub struct Redirect {
    pub location: String,
}

impl Redirect {
    /// The redirect to `uri`.
    pub fn to(uri: &str) -> (r: Redirect)
        ensures
            r.location@ == uri@,
    {
        Redirect { location: uri.to_owned() }
    }
}

/// The root of the site: sends the caller on to the main page.
pub fn index() -> (r: Redirect)
    ensures
        r.location@ == "https://xodium.org"@,
{
    Redirect::to("https://xodium.org")
}

/// The page of a caller who signed in. It shows the token of the sign-in.
pub fn dashboard(user: AuthenticatedUser) -> (page: String)
    ensures
        page@ == "<h1>Welcome to your Dashboard!</h1><p>Your token is: "@ + user.0@ + "</p>"@,
{
    let mut page = String::from_str("<h1>Welcome to your Dashboard!</h1><p>Your token is: ");
    page.append(user.0.as_str());
    page.append("</p>");
    page
}

/// Signs the caller out: the sealed cookie `token` is taken out of
/// `cookies`, and the caller is sent on to the root of the site.
pub fn github_logout(cookies: &mut CookieJar) -> (r: Redirect)
    ensures
        final(cookies)@ == cookies_without(old(cookies)@, "token"@),
        r.location@ == "/"@,
{
    cookies.remove("token");
    Redirect::to("/")
}

/// The answer to the service worker of a web client, whatever version it
/// asks for: there is nothing to send.
pub fn flutter_service_worker(_v: Option<String>) -> (r: Status)
    ensures
        r.code == 204,
{
    Status::no_content()
}

} // verus!
