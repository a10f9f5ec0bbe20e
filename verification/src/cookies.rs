//! The cookie that carries the session token: which attributes it is sent
//! with.

use vstd::prelude::*;

verus! {

/// Name of the cookie that carries the session token.
pub const SESSION_COOKIE_NAME: &'static str = "session_id";

/// A session cookie, attribute by attribute.
#[derive(Debug, PartialEq, Eq)]
pub struct SessionCookie {
    /// The name of the cookie.
    pub name: String,
    /// The session token, or nothing where the cookie is to be dropped.
    pub value: String,
    /// The paths that the cookie is sent for.
    pub path: String,
    /// Whether scripts are kept from reading the cookie.
    pub http_only: bool,
    /// Whether the cookie is sent with top-level navigations from other
    /// sites, and with no other request from there.
    pub same_site_lax: bool,
    /// Whether the cookie is sent over secure connections only.
    pub secure: bool,
    /// For how many seconds the client keeps the cookie, where that is
    /// limited.
    pub max_age_seconds: Option<i64>,
}

/// What a [`SessionCookie`] holds, as mathematical values.
pub struct SessionCookieView {
    pub name: Seq<char>,
    pub value: Seq<char>,
    pub path: Seq<char>,
    pub http_only: bool,
    pub same_site_lax: bool,
    pub secure: bool,
    pub max_age_seconds: Option<i64>,
}

impl View for SessionCookie {
    type V = SessionCookieView;

    open spec fn view(&self) -> SessionCookieView {
        SessionCookieView {
            name: self.name@,
            value: self.value@,
            path: self.path@,
            http_only: self.http_only,
            same_site_lax: self.same_site_lax,
            secure: self.secure,
            max_age_seconds: self.max_age_seconds,
        }
    }
}

/// The session cookie with the given value and lifetime: valid for the
/// whole site, hidden from scripts, and lax about the site of origin.
pub open spec fn session_cookie_of(
    value: Seq<char>,
    max_age_seconds: Option<i64>,
    secure: bool,
) -> SessionCookieView {
    SessionCookieView {
        name: SESSION_COOKIE_NAME@,
        value,
        path: "/"@,
        http_only: true,
        same_site_lax: true,
        secure,
        max_age_seconds,
    }
}

/// Builds a session cookie with the given value and lifetime. `secure` says
/// whether the cookie is to be kept to secure connections.
pub fn build_session_cookie(value: &str, max_age_seconds: Option<i64>, secure: bool) -> (cookie:
    SessionCookie)
    ensures
        cookie@ == session_cookie_of(value@, max_age_seconds, secure),
{
    SessionCookie {
        name: SESSION_COOKIE_NAME.to_owned(),
        value: value.to_owned(),
        path: "/".to_owned(),
        http_only: true,
        same_site_lax: true,
        secure,
        max_age_seconds,
    }
}

/// The cookie that hands the session token to the client, to be kept until
/// the client's session ends.
pub fn session_cookie(session_id: &str, secure: bool) -> (cookie: SessionCookie)
    ensures
        cookie@ == session_cookie_of(session_id@, None, secure),
{
    build_session_cookie(session_id, None, secure)
}

/// The cookie that makes the client drop the session cookie: empty, and
/// expired at once.
pub fn cleared_session_cookie(secure: bool) -> (cookie: SessionCookie)
    ensures
        cookie@ == session_cookie_of(Seq::empty(), Some(0i64), secure),
{
    let cookie = build_session_cookie("", Some(0), secure);
    proof {
        reveal_strlit("");
        assert(""@ =~= Seq::<char>::empty());
    }
    cookie
}

} // verus!
