//! The session guard: the cookie that carries a session, and the decision that
//! gates protected paths on it.
//!
//! The server keeps no record of a session. The cookie is the session: its
//! value is the user's identifier, sealed with the process's key, and its
//! lifetime is the `Max-Age` that it was issued with.

use crate::ids::{hyphenated, hyphenated_text, parse_uuid, uuid_text_value};
use crate::infra::InfraError;
use crate::redirect::{Redirect, RedirectView, TEMPORARY_REDIRECT};
use crate::text::{starts_with, str_equal};
use axum::http::header::SET_COOKIE;
use axum::response::IntoResponse;
use axum_extra::extract::cookie::{Cookie, Key, PrivateCookieJar};
use base64::engine::general_purpose::STANDARD;
use base64::Engine;
use vstd::prelude::*;

verus! {

/// Every path that begins with this prefix is protected, but for the login path.
pub const PROTECTED_PREFIX: &'static str = "/htm";

/// The login path, which is always public.
pub const LOGIN_PATH: &'static str = "/htm/login";

/// The name of the cookie that carries the session.
pub const SESSION_COOKIE: &'static str = "user_id";

/// The lifetime of a session in seconds, fixed at issuance: thirty minutes.
pub const SESSION_MAX_AGE_SECS: u64 = 1800;

/// The least number of bytes of key material.
pub const KEY_MIN_LEN: usize = 64;

/// The detail of the failure to decode a cookie key that is not base64.
pub const KEY_NOT_BASE64: &'static str = "the cookie key is not base64";

/// The detail of the failure to decode a cookie key that is too short.
pub const KEY_TOO_SHORT: &'static str = "the cookie key is shorter than 64 bytes";

/// The bytes that `text` encodes in base64, or `None` where it encodes none.
/// This is what `Engine::decode` of the `base64` crate makes of the text with
/// its `STANDARD` engine: the standard alphabet, with canonical padding.
pub uninterp spec fn base64_decoded(text: Seq<char>) -> Option<Seq<u8>>;

/// Calls `Engine::decode` on the `STANDARD` engine of `base64`. The contract
/// only names the outcome.
#[verifier::external_body]
fn decode_base64(text: &str) -> (r: Option<Vec<u8>>)
    ensures
        match r {
            Some(bytes) => base64_decoded(text@) == Some(bytes@),
            None => base64_decoded(text@) is None,
        },
{
    STANDARD.decode(text).ok()
}

/// The plaintext that the cookie `name` with the sealed value `sealed` holds
/// under `key`, or `None` where the value does not authenticate or decrypt.
/// This is what `PrivateCookieJar::decrypt` of `axum_extra` makes of the cookie.
pub uninterp spec fn private_cookie_unsealed(
    key: Seq<u8>,
    name: Seq<char>,
    sealed: Seq<char>,
) -> Option<Seq<char>>;

/// Names that pass through a cookie header unchanged: not empty, and made of
/// ASCII letters, digits, `_` and `-`.
pub open spec fn is_cookie_name(name: Seq<char>) -> bool {
    &&& name.len() > 0
    &&& forall|i: int|
        0 <= i < name.len() ==> {
            let c = #[trigger] name[i];
            ('a' <= c && c <= 'z') || ('A' <= c && c <= 'Z') || ('0' <= c && c <= '9') || c == '_'
                || c == '-'
        }
}

/// Calls `PrivateCookieJar::decrypt` on a cookie with the given name and value,
/// in a jar made with `Key::from(key)`, and hands out the value of the cookie
/// that comes back. `Key::from` panics on fewer than 64 bytes, which `requires`
/// leaves out. The contract only names the outcome.
#[verifier::external_body]
fn unseal(key: &Vec<u8>, name: &str, sealed: &str) -> (r: Option<String>)
    requires
        key@.len() >= KEY_MIN_LEN,
    ensures
        match r {
            Some(plain) => private_cookie_unsealed(key@, name@, sealed@) == Some(plain@),
            None => private_cookie_unsealed(key@, name@, sealed@) is None,
        },
{
    let jar = PrivateCookieJar::new(Key::from(key.as_slice()));
    jar.decrypt(Cookie::new(name.to_owned(), sealed.to_owned())).map(|c| c.value().to_owned())
}

/// Calls `PrivateCookieJar::add` on an empty jar made with `Key::from(key)`, and
/// hands out the sealed value that the jar then puts into its `Set-Cookie`
/// header (read back with `Cookie::parse_encoded`). The nonce is random, so the
/// sealed value is not determined; what is claimed is what the crate documents:
/// decryption under the same key and name always succeeds and gives the value
/// back. `requires` leaves out short keys, on which `Key::from` panics, and
/// names that a header would not carry unchanged.
#[verifier::external_body]
fn seal(key: &Vec<u8>, name: &str, value: &str) -> (sealed: String)
    requires
        key@.len() >= KEY_MIN_LEN,
        is_cookie_name(name@),
    ensures
        private_cookie_unsealed(key@, name@, sealed@) == Some(value@),
{
    let jar = PrivateCookieJar::new(Key::from(key.as_slice()));
    let response = jar.add(Cookie::new(name.to_owned(), value.to_owned())).into_response();
    let header = response.headers().get(SET_COOKIE).unwrap().to_str().unwrap().to_owned();
    Cookie::parse_encoded(header).unwrap().value().to_owned()
}

/// The symmetric key that seals session cookies. It is loaded once at startup
/// and read-only afterwards; it always holds at least 64 bytes.
pub struct CookieKey {
    bytes: Vec<u8>,
}

impl View for CookieKey {
    type V = Seq<u8>;

    closed spec fn view(&self) -> Seq<u8> {
        self.bytes@
    }
}

impl CookieKey {
    #[verifier::type_invariant]
    spec fn long_enough(self) -> bool {
        self.bytes@.len() >= KEY_MIN_LEN
    }

    /// The key made of `bytes`, or `None` where they are fewer than 64.
    pub fn new(bytes: Vec<u8>) -> (r: Option<CookieKey>)
        ensures
            r is Some <==> bytes@.len() >= KEY_MIN_LEN,
            r matches Some(key) ==> key@ == bytes@,
    {
        if bytes.len() >= KEY_MIN_LEN {
            Some(CookieKey { bytes })
        } else {
            None
        }
    }

    /// The bytes of the key.
    pub fn as_bytes(&self) -> (r: &Vec<u8>)
        ensures
            r@ == self@,
            r@.len() >= KEY_MIN_LEN,
    {
        proof {
            use_type_invariant(self);
        }
        &self.bytes
    }
}

impl Clone for CookieKey {
    fn clone(&self) -> (r: CookieKey)
        ensures
            r@ == self@,
    {
        proof {
            use_type_invariant(self);
        }
        CookieKey { bytes: self.bytes.clone() }
    }
}

/// Loads the cookie key from its configured form, base64 text. Text that is
/// not base64, and text that encodes fewer than 64 bytes, is a failure to
/// decode the key.
pub fn load_cookie_key(encoded: &str) -> (r: Result<CookieKey, InfraError>)
    ensures
        match base64_decoded(encoded@) {
            Some(bytes) => if bytes.len() >= KEY_MIN_LEN {
                r matches Ok(key) && key@ == bytes
            } else {
                r matches Err(InfraError::CookieKeyDecode { detail }) && detail@ == KEY_TOO_SHORT@
            },
            None => r matches Err(InfraError::CookieKeyDecode { detail }) && detail@
                == KEY_NOT_BASE64@,
        },
{
    match decode_base64(encoded) {
        Some(bytes) => match CookieKey::new(bytes) {
            Some(key) => Ok(key),
            None => Err(InfraError::CookieKeyDecode { detail: KEY_TOO_SHORT.to_owned() }),
        },
        None => Err(InfraError::CookieKeyDecode { detail: KEY_NOT_BASE64.to_owned() }),
    }
}

/// A validated identity: the user whom the session cookie names.
#[derive(Clone, Copy, Debug, PartialEq, Eq, Structural)]
pub struct Session {
    pub user_id: u128,
}

/// The session cookie as it is handed to the client.
#[derive(Debug, PartialEq, Eq)]
pub struct SessionCookie {
    pub name: String,
    /// The sealed value.
    pub value: String,
    pub path: String,
    pub secure: bool,
    pub http_only: bool,
    pub max_age_secs: u64,
}

/// The mathematical content of a [`SessionCookie`].
pub struct SessionCookieView {
    pub name: Seq<char>,
    pub value: Seq<char>,
    pub path: Seq<char>,
    pub secure: bool,
    pub http_only: bool,
    pub max_age_secs: u64,
}

impl View for SessionCookie {
    type V = SessionCookieView;

    open spec fn view(&self) -> SessionCookieView {
        SessionCookieView {
            name: self.name@,
            value: self.value@,
            path: self.path@,
            secure: self.secure,
            http_only: self.http_only,
            max_age_secs: self.max_age_secs,
        }
    }
}

impl SessionCookieView {
    /// What a client that honours `Max-Age` presents `elapsed_secs` seconds
    /// after it received the cookie: the value while the cookie lives, nothing
    /// from then on.
    pub open spec fn presented_after(self, elapsed_secs: u64) -> Option<Seq<char>> {
        if elapsed_secs < self.max_age_secs {
            Some(self.value)
        } else {
            None
        }
    }
}

/// The view of a value that a request may or may not present.
pub open spec fn presented_text(presented: Option<&str>) -> Option<Seq<char>> {
    match presented {
        Some(value) => Some(value@),
        None => None,
    }
}

/// The session that a presented cookie value stands for under `key`: the value
/// must be there, unseal under the session cookie's name, and denote a UUID.
pub open spec fn session_of(key: Seq<u8>, presented: Option<Seq<char>>) -> Option<Session> {
    match presented {
        None => None,
        Some(sealed) => match private_cookie_unsealed(key, SESSION_COOKIE@, sealed) {
            None => None,
            Some(plain) => match uuid_text_value(plain) {
                None => None,
                Some(user_id) => Some(Session { user_id }),
            },
        },
    }
}

/// Whether `cookie` is a session cookie for `user_id` as issued under `key`:
/// it has the session cookie's name and attributes, its value unseals to the
/// hyphenated text of the identifier, and it stands for that user's session.
pub open spec fn is_issued(key: Seq<u8>, user_id: u128, cookie: SessionCookieView) -> bool {
    &&& cookie.name == SESSION_COOKIE@
    &&& cookie.path == "/"@
    &&& cookie.secure
    &&& cookie.http_only
    &&& cookie.max_age_secs == SESSION_MAX_AGE_SECS
    &&& private_cookie_unsealed(key, SESSION_COOKIE@, cookie.value) == Some(
        hyphenated_text(user_id),
    )
    &&& session_of(key, Some(cookie.value)) == Some(Session { user_id })
}

/// Whether a path requires a session: it begins with the protected prefix and
/// is not the login path.
pub open spec fn is_protected(path: Seq<char>) -> bool {
    PROTECTED_PREFIX@.is_prefix_of(path) && path != LOGIN_PATH@
}

/// What the guard decides for a request.
#[derive(Clone, Copy, Debug, PartialEq, Eq, Structural)]
pub enum GuardDecision {
    /// The path is not protected: the request is forwarded unchanged.
    Bypass,
    /// The path is protected and the request carries a session: it is forwarded.
    Authenticated(Session),
    /// The path is protected and the request carries no session: it is answered
    /// with a temporary redirect to the login path, and no handler runs.
    Unauthenticated,
}

/// The decision for a request to `path` that carries `session`.
pub open spec fn guard_decision(path: Seq<char>, session: Option<Session>) -> GuardDecision {
    if !is_protected(path) {
        GuardDecision::Bypass
    } else {
        match session {
            Some(s) => GuardDecision::Authenticated(s),
            None => GuardDecision::Unauthenticated,
        }
    }
}

impl GuardDecision {
    /// Whether the request goes on to its handler.
    pub open spec fn forwards_spec(self) -> bool {
        !(self is Unauthenticated)
    }

    /// The redirect that answers the request in place of its handler.
    pub open spec fn redirect_spec(self) -> Option<RedirectView> {
        if self is Unauthenticated {
            Some(RedirectView { status: TEMPORARY_REDIRECT, location: LOGIN_PATH@ })
        } else {
            None
        }
    }

    /// Whether the request goes on to its handler.
    pub fn forwards(&self) -> (r: bool)
        ensures
            r == self.forwards_spec(),
    {
        match self {
            GuardDecision::Unauthenticated => false,
            _ => true,
        }
    }

    /// The redirect that answers the request in place of its handler: a
    /// temporary redirect to the login path where the request is
    /// unauthenticated, none otherwise.
    pub fn redirect(&self) -> (r: Option<Redirect>)
        ensures
            match r {
                Some(redirect) => self.redirect_spec() == Some(redirect@),
                None => self.redirect_spec() is None,
            },
            r is None <==> self.forwards_spec(),
    {
        match self {
            GuardDecision::Unauthenticated => Some(Redirect::temporary(LOGIN_PATH)),
            _ => None,
        }
    }
}

/// Whether `path` requires a session.
pub fn path_is_protected(path: &str) -> (r: bool)
    ensures
        r == is_protected(path@),
{
    starts_with(path, PROTECTED_PREFIX) && !str_equal(path, LOGIN_PATH)
}

/// The session that the presented cookie value stands for, if any.
pub fn read_session(key: &CookieKey, presented: Option<&str>) -> (r: Option<Session>)
    ensures
        r == session_of(key@, presented_text(presented)),
{
    match presented {
        None => None,
        Some(sealed) => match unseal(key.as_bytes(), SESSION_COOKIE, sealed) {
            None => None,
            Some(plain) => match parse_uuid(plain.as_str()) {
                None => None,
                Some(user_id) => Some(Session { user_id }),
            },
        },
    }
}

/// The guard's decision for a request to `path` whose session, as far as it
/// carries one, is `session`.
pub fn guard(path: &str, session: Option<Session>) -> (r: GuardDecision)
    ensures
        r == guard_decision(path@, session),
{
    if !path_is_protected(path) {
        GuardDecision::Bypass
    } else {
        match session {
            Some(s) => GuardDecision::Authenticated(s),
            None => GuardDecision::Unauthenticated,
        }
    }
}

/// The guard, evaluated once per request before its handler: a request to an
/// unprotected path or to the login path passes whatever it carries; a request
/// to a protected path passes where the presented session cookie unseals to a
/// user's identifier, and is otherwise redirected to the login path. The
/// identity is not checked against storage.
pub fn session_middleware(key: &CookieKey, path: &str, presented: Option<&str>) -> (r:
    GuardDecision)
    ensures
        r == guard_decision(path@, session_of(key@, presented_text(presented))),
{
    if !path_is_protected(path) {
        return GuardDecision::Bypass;
    }
    guard(path, read_session(key, presented))
}

/// The session cookie with the given sealed value: named `user_id`, for path
/// `/`, `Secure`, `HttpOnly`, with a `Max-Age` of thirty minutes.
pub fn session_cookie(sealed: String) -> (cookie: SessionCookie)
    ensures
        cookie@ == (SessionCookieView {
            name: SESSION_COOKIE@,
            value: sealed@,
            path: "/"@,
            secure: true,
            http_only: true,
            max_age_secs: SESSION_MAX_AGE_SECS,
        }),
{
    SessionCookie {
        name: SESSION_COOKIE.to_owned(),
        value: sealed,
        path: "/".to_owned(),
        secure: true,
        http_only: true,
        max_age_secs: SESSION_MAX_AGE_SECS,
    }
}

/// Issues the session cookie for `user_id`: named `user_id`, for path `/`,
/// `Secure`, `HttpOnly`, with a `Max-Age` of thirty minutes, its value the
/// sealed hyphenated identifier. Presented back, it stands for that user's
/// session. Only a successful login issues one.
pub(crate) fn issue_session_cookie(key: &CookieKey, user_id: u128) -> (cookie: SessionCookie)
    ensures
        is_issued(key@, user_id, cookie@),
{
    let plain = hyphenated(user_id);
    proof {
        reveal_strlit("user_id");
    }
    let sealed = seal(key.as_bytes(), SESSION_COOKIE, plain.as_str());
    session_cookie(sealed)
}

impl SessionCookie {
    /// What a client that honours `Max-Age` presents `elapsed_secs` seconds
    /// after it received the cookie.
    pub fn presented_after(&self, elapsed_secs: u64) -> (r: Option<&str>)
        ensures
            presented_text(r) == self@.presented_after(elapsed_secs),
    {
        if elapsed_secs < self.max_age_secs {
            Some(self.value.as_str())
        } else {
            None
        }
    }
}

/// A request to a protected path that carries no valid session is answered
/// with a temporary redirect to the login path, and its handler does not run:
/// nothing is read or written on its behalf.
pub proof fn lemma_unauthenticated_is_redirected(
    key: Seq<u8>,
    path: Seq<char>,
    presented: Option<Seq<char>>,
)
    requires
        is_protected(path),
        session_of(key, presented) is None,
    ensures
        guard_decision(path, session_of(key, presented)) == GuardDecision::Unauthenticated,
        !guard_decision(path, session_of(key, presented)).forwards_spec(),
        guard_decision(path, session_of(key, presented)).redirect_spec() == Some(
            RedirectView { status: 307, location: "/htm/login"@ },
        ),
{
}

/// A request to the login path is never redirected, whatever it carries.
pub proof fn lemma_login_path_is_public(session: Option<Session>)
    ensures
        guard_decision(LOGIN_PATH@, session) == GuardDecision::Bypass,
        guard_decision(LOGIN_PATH@, session).forwards_spec(),
        guard_decision(LOGIN_PATH@, session).redirect_spec() is None,
{
}

/// The cookie round trip. A session cookie issued for a user, presented before
/// its thirty minutes are over, authenticates a request to a protected path as
/// exactly that user. Presented by a client that honours `Max-Age` once the
/// thirty minutes are over, it is no longer there: the request is
/// unauthenticated.
pub proof fn lemma_cookie_round_trip(
    key: Seq<u8>,
    user_id: u128,
    cookie: SessionCookieView,
    path: Seq<char>,
    elapsed_secs: u64,
)
    requires
        is_issued(key, user_id, cookie),
        is_protected(path),
    ensures
        elapsed_secs < 1800 ==> guard_decision(
            path,
            session_of(key, cookie.presented_after(elapsed_secs)),
        ) == GuardDecision::Authenticated(Session { user_id }),
        elapsed_secs >= 1800 ==> guard_decision(
            path,
            session_of(key, cookie.presented_after(elapsed_secs)),
        ) == GuardDecision::Unauthenticated,
{
}

} // verus!
