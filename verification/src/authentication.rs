//! The guards of single routes: what a request must present to reach a
//! handler.

use vstd::prelude::*;
use crate::config::{Config, API_KEY};
use crate::http::{cookie_value, lookup, text_of, CookieJar, Method, Request, Status};
use crate::identification::{is_request_id, RRIM};

verus! {

/// Whether a caller presented the secret: a credential was supplied, and it
/// is the secret, character for character.
pub open spec fn presents(supplied: Option<Seq<char>>, secret: Seq<char>) -> bool {
    supplied == Some(secret)
}

/// Compares a supplied credential with the configured secret.
pub fn check(supplied: Option<&str>, secret: &str) -> (r: bool)
    ensures
        r == presents(text_of(supplied), secret@),
{
    match supplied {
        Some(key) => key.eq(secret),
        None => false,
    }
}

/// Proof of the built-in API key.
#[derive(Clone, Copy, Debug)]
pub struct Auth;

impl Auth {
    /// The guard passes where the request presents the built-in key in its
    /// `X-API-Key` header; any other request is unauthorized.
    pub fn from_request(request: &Request) -> (r: Result<Auth, Status>)
        ensures
            r is Ok <==> presents(lookup(request.headers@, "X-API-Key"@), API_KEY@),
            r matches Err(status) ==> status.code == 401,
    {
        if check(request.headers.get_one("X-API-Key"), API_KEY) {
            Ok(Auth)
        } else {
            Err(Status::unauthorized())
        }
    }
}

/// Proof of the configured API key.
#[derive(Clone, Copy, Debug)]
pub struct RAG;

impl RAG {
    /// The guard passes where the request presents the configured key in
    /// its `X-API-Key` header; any other request is unauthorized.
    pub fn from_request(request: &Request, config: &Config) -> (r: Result<RAG, Status>)
        ensures
            r is Ok <==> presents(lookup(request.headers@, "X-API-Key"@), config.api_key@),
            r matches Err(status) ==> status.code == 401,
    {
        if check(request.headers.get_one("X-API-Key"), config.api_key.as_str()) {
            Ok(RAG)
        } else {
            Err(Status::unauthorized())
        }
    }
}

/// The account that a session belongs to.
#[derive(Clone, Debug)]
pub struct GitHubUser {
    pub id: u64,
    pub login: String,
    pub name: Option<String>,
    pub email: Option<String>,
    pub avatar_url: Option<String>,
}

/// Proof of a session.
#[derive(Clone, Copy, Debug)]
pub struct AuthGuard;

impl AuthGuard {
    /// The text of the session that a request carries: the value of its
    /// sealed cookie `user_session`.
    pub fn session<'a>(request: &'a Request) -> (r: Option<&'a str>)
        ensures
            text_of(r) == cookie_value(request.private_cookies@, "user_session"@),
    {
        request.private_cookies.get("user_session")
    }

    /// The guard passes where the request carries a session and the session
    /// names an account: `account` is what the text of the session was read
    /// as, if it could be read. Any other request is unauthorized.
    pub fn from_request(request: &Request, account: Option<GitHubUser>) -> (r: Result<
        AuthGuard,
        Status,
    >)
        ensures
            r is Ok <==> cookie_value(request.private_cookies@, "user_session"@) is Some
                && account is Some,
            r matches Err(status) ==> status.code == 401,
    {
        match (AuthGuard::session(request), account) {
            (Some(_), Some(_)) => Ok(AuthGuard),
            _ => Err(Status::unauthorized()),
        }
    }
}

/// A caller who signed in, by the token of the sign-in.
#[derive(Clone, Debug)]
pub struct AuthenticatedUser(pub String);

impl AuthenticatedUser {
    /// The guard passes where the request carries the sealed cookie
    /// `token`, whose value it holds. Any other request is unauthorized.
    pub fn from_request(request: &Request) -> (r: Result<AuthenticatedUser, Status>)
        ensures
            match r {
                Ok(user) => cookie_value(request.private_cookies@, "token"@) == Some(user.0@),
                Err(status) => cookie_value(request.private_cookies@, "token"@) is None
                    && status.code == 401,
            },
    {
        match request.private_cookies.get("token") {
            Some(token) => Ok(AuthenticatedUser(token.to_owned())),
            None => Err(Status::unauthorized()),
        }
    }
}

/// Whether a method only reads, so that a request of that method needs no
/// token against forgery.
pub open spec fn is_safe(method: Method) -> bool {
    method == Method::Get || method == Method::Head || method == Method::Options
}

/// What a request shows against forgery: nothing where its method is safe;
/// otherwise the token that its `X-CSRF-Token` header and its cookie
/// `csrf_token` agree on, if they do.
pub open spec fn forgery_token(request: &Request) -> Option<Seq<char>> {
    let header = lookup(request.headers@, "X-CSRF-Token"@);
    let cookie = cookie_value(request.cookies@, "csrf_token"@);
    if is_safe(request.method) {
        Some(Seq::empty())
    } else if header is Some && header == cookie {
        header
    } else {
        None
    }
}

/// Hands out a token against forgery: a fresh identifier is added to
/// `cookies` under the name `csrf_token`.
pub fn set_csrf_cookie(cookies: &mut CookieJar)
    ensures
        exists|token: Seq<char>|
            #[trigger] is_request_id(token) && final(cookies)@ == old(cookies)@.push(
                ("csrf_token"@, token),
            ),
{
    let token = RRIM.fresh();
    cookies.add("csrf_token", token.as_str());
    assert(is_request_id(token@));
}

/// Proof that a request was not forged.
#[derive(Clone, Debug)]
pub struct CsrfToken(pub String);

impl CsrfToken {
    /// The guard passes with the empty token where the method of the
    /// request is safe, and with the token of the request where its header
    /// and its cookie agree. Any other request is forbidden.
    pub fn from_request(request: &Request) -> (r: Result<CsrfToken, Status>)
        ensures
            match r {
                Ok(token) => forgery_token(request) == Some(token.0@),
                Err(status) => forgery_token(request) is None && status.code == 403,
            },
    {
        if request.method == Method::Get || request.method == Method::Head || request.method
            == Method::Options {
            return Ok(CsrfToken(String::new()));
        }
        match (request.headers.get_one("X-CSRF-Token"), request.cookies.get("csrf_token")) {
            (Some(header), Some(cookie)) => {
                if header.eq(cookie) {
                    Ok(CsrfToken(header.to_owned()))
                } else {
                    Err(Status::forbidden())
                }
            },
            _ => Err(Status::forbidden()),
        }
    }
}

} // verus!
