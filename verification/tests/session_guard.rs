use axum_extra::extract::cookie::{Cookie, Key, PrivateCookieJar};
use demo_lambda_axum::redirect::Redirect;
use demo_lambda_axum::login::{post_login, LoginForm, LoginOutcome, User};
use demo_lambda_axum::infra::InfraError;
use demo_lambda_axum::session::{
    guard, load_cookie_key, path_is_protected, read_session, session_cookie, session_middleware,
    CookieKey, GuardDecision, Session, SessionCookie, KEY_MIN_LEN, LOGIN_PATH, PROTECTED_PREFIX,
    SESSION_COOKIE, SESSION_MAX_AGE_SECS,
};

const ALICE: u128 = 0xa1a2a3a4_b1b2_c1c2_d1d2_d3d4d5d6d7d8;

fn text(id: u128) -> String {
    uuid::Uuid::from_u128(id).hyphenated().to_string()
}

/// The plaintext of a sealed cookie value, unsealed without the library.
fn plaintext(key: &CookieKey, sealed: &str) -> Option<String> {
    let jar = PrivateCookieJar::new(Key::from(key.as_bytes()));
    jar.decrypt(Cookie::new("user_id", sealed.to_owned())).map(|c| c.value().to_owned())
}

/// A cookie value sealed without the library.
fn sealed(key: &CookieKey, name: &str, value: &str) -> String {
    let mut jar = cookie::CookieJar::new();
    jar.private_mut(&Key::from(key.as_bytes())).add(Cookie::new(name.to_owned(), value.to_owned()));
    jar.get(name).unwrap().value().to_owned()
}

/// The session cookie that a successful login of the user issues.
fn issue_session_cookie(key: &CookieKey, user_id: u128) -> SessionCookie {
    let form = LoginForm { username: "someone".to_owned(), password: "secret".to_owned() };
    let user = User { id: user_id, name: "someone".to_owned(), password: "secret".to_owned() };
    match post_login(key, &form, Some(user)) {
        LoginOutcome::Granted { cookie, .. } => cookie,
        LoginOutcome::Denied => panic!("the credentials are good"),
    }
}

fn key(seed: u8) -> CookieKey {
    let bytes: Vec<u8> = (0..64u8).map(|i| i.wrapping_mul(7).wrapping_add(seed)).collect();
    match CookieKey::new(bytes) {
        Some(key) => key,
        None => panic!("64 bytes make a key"),
    }
}

#[test]
fn key_needs_64_bytes() {
    assert_eq!(KEY_MIN_LEN, 64);
    assert!(CookieKey::new(vec![7u8; 63]).is_none());
    assert!(CookieKey::new(Vec::new()).is_none());
    assert!(CookieKey::new(vec![7u8; 64]).is_some());
    assert!(CookieKey::new(vec![7u8; 100]).is_some());
}

#[test]
fn key_keeps_its_bytes() {
    let bytes: Vec<u8> = (0..80u8).collect();
    let key = CookieKey::new(bytes.clone()).unwrap();
    assert_eq!(key.as_bytes(), &bytes);
    assert_eq!(key.clone().as_bytes(), &bytes);
}

#[test]
fn issued_cookie_has_the_session_attributes() {
    let cookie = issue_session_cookie(&key(1), ALICE);
    assert_eq!(cookie.name, "user_id");
    assert_eq!(cookie.name, SESSION_COOKIE);
    assert_eq!(cookie.path, "/");
    assert!(cookie.secure);
    assert!(cookie.http_only);
    assert_eq!(cookie.max_age_secs, 1800);
    assert_eq!(SESSION_MAX_AGE_SECS, 30 * 60);
}

#[test]
fn issued_cookie_holds_the_hyphenated_identifier() {
    let key = key(1);
    let cookie = issue_session_cookie(&key, ALICE);
    assert_eq!(
        plaintext(&key, &cookie.value),
        Some("a1a2a3a4-b1b2-c1c2-d1d2-d3d4d5d6d7d8".to_owned())
    );
    let cookie = issue_session_cookie(&key, 0x0123456789abcdef);
    assert_eq!(
        plaintext(&key, &cookie.value),
        Some("00000000-0000-0000-0123-456789abcdef".to_owned())
    );
    let cookie = issue_session_cookie(&key, u128::MAX);
    assert_eq!(
        plaintext(&key, &cookie.value),
        Some("ffffffff-ffff-ffff-ffff-ffffffffffff".to_owned())
    );
}

#[test]
fn session_is_read_from_every_form_of_the_identifier() {
    let key = key(1);
    for plain in [
        "a1a2a3a4-b1b2-c1c2-d1d2-d3d4d5d6d7d8",
        "A1A2A3A4-B1B2-C1C2-D1D2-D3D4D5D6D7D8",
        "a1a2a3a4b1b2c1c2d1d2d3d4d5d6d7d8",
        "{a1a2a3a4-b1b2-c1c2-d1d2-d3d4d5d6d7d8}",
        "urn:uuid:a1a2a3a4-b1b2-c1c2-d1d2-d3d4d5d6d7d8",
    ] {
        let value = sealed(&key, "user_id", plain);
        assert_eq!(read_session(&key, Some(&value)), Some(Session { user_id: ALICE }));
    }
}

#[test]
fn issued_cookie_is_sealed() {
    let cookie = issue_session_cookie(&key(1), ALICE);
    assert_ne!(cookie.value, text(ALICE));
    assert!(!cookie.value.contains("a1a2a3a4"));
    let again = issue_session_cookie(&key(1), ALICE);
    assert_ne!(cookie.value, again.value);
}

#[test]
fn cookie_round_trip_gives_the_user_back() {
    let key = key(1);
    for user in [0u128, ALICE, u128::MAX] {
        let cookie = issue_session_cookie(&key, user);
        assert_eq!(read_session(&key, Some(&cookie.value)), Some(Session { user_id: user }));
    }
}

#[test]
fn cookie_is_presented_until_it_expires() {
    let key = key(1);
    let cookie = issue_session_cookie(&key, ALICE);
    assert_eq!(cookie.presented_after(0), Some(cookie.value.as_str()));
    assert_eq!(cookie.presented_after(1799), Some(cookie.value.as_str()));
    assert_eq!(cookie.presented_after(1800), None);
    assert_eq!(cookie.presented_after(u64::MAX), None);

    let path = "/htm/journal/entries/2024-01-01";
    assert_eq!(
        session_middleware(&key, path, cookie.presented_after(1799)),
        GuardDecision::Authenticated(Session { user_id: ALICE })
    );
    assert_eq!(
        session_middleware(&key, path, cookie.presented_after(1800)),
        GuardDecision::Unauthenticated
    );
}

#[test]
fn plain_value_is_no_session() {
    let key = key(1);
    assert_eq!(read_session(&key, Some(&text(ALICE))), None);
    assert_eq!(read_session(&key, Some("")), None);
    assert_eq!(read_session(&key, Some("not a cookie")), None);
    assert_eq!(read_session(&key, None), None);
}

#[test]
fn cookie_of_another_key_is_no_session() {
    let cookie = issue_session_cookie(&key(1), ALICE);
    assert_eq!(read_session(&key(2), Some(&cookie.value)), None);
}

#[test]
fn tampered_cookie_is_no_session() {
    let key = key(1);
    let cookie = issue_session_cookie(&key, ALICE);
    let mut tampered: Vec<char> = cookie.value.chars().collect();
    let middle = tampered.len() / 2;
    tampered[middle] = if tampered[middle] == 'A' { 'B' } else { 'A' };
    let tampered: String = tampered.into_iter().collect();
    assert_eq!(read_session(&key, Some(&tampered)), None);
}

#[test]
fn protected_paths_begin_with_the_prefix() {
    assert_eq!(PROTECTED_PREFIX, "/htm");
    assert_eq!(LOGIN_PATH, "/htm/login");
    assert!(path_is_protected("/htm"));
    assert!(path_is_protected("/htm/index.html"));
    assert!(path_is_protected("/htm/journal/entries/2024-01-01"));
    assert!(path_is_protected("/htm/login/"));
    assert!(path_is_protected("/htm/login2"));
    assert!(path_is_protected("/htmx"));
    assert!(!path_is_protected("/htm/login"));
    assert!(!path_is_protected("/"));
    assert!(!path_is_protected(""));
    assert!(!path_is_protected("/ht"));
    assert!(!path_is_protected("/health"));
    assert!(!path_is_protected("/api/v1/hello"));
    assert!(!path_is_protected("/static/htm"));
    assert!(!path_is_protected("/HTM/index.html"));
}

#[test]
fn unprotected_path_bypasses_the_guard() {
    let key = key(1);
    let cookie = issue_session_cookie(&key, ALICE);
    for path in ["/", "/health", "/api/v1/hello", "/static/app.css"] {
        assert_eq!(session_middleware(&key, path, None), GuardDecision::Bypass);
        assert_eq!(session_middleware(&key, path, Some("junk")), GuardDecision::Bypass);
        assert_eq!(session_middleware(&key, path, Some(&cookie.value)), GuardDecision::Bypass);
    }
}

#[test]
fn login_path_is_never_redirected() {
    let key = key(1);
    let cookie = issue_session_cookie(&key, ALICE);
    let stale = issue_session_cookie(&self::key(2), ALICE);
    for presented in [None, Some("junk"), Some(cookie.value.as_str()), Some(stale.value.as_str())]
    {
        let decision = session_middleware(&key, "/htm/login", presented);
        assert_eq!(decision, GuardDecision::Bypass);
        assert!(decision.forwards());
        assert_eq!(decision.redirect(), None);
    }
}

#[test]
fn protected_path_without_session_is_redirected_to_login() {
    let key = key(1);
    let stale = issue_session_cookie(&self::key(2), ALICE);
    for presented in [None, Some("junk"), Some(""), Some(stale.value.as_str())] {
        let decision = session_middleware(&key, "/htm/journal/entries/2024-01-01", presented);
        assert_eq!(decision, GuardDecision::Unauthenticated);
        assert!(!decision.forwards());
        assert_eq!(
            decision.redirect(),
            Some(Redirect { status: 307, location: "/htm/login".to_owned() })
        );
    }
}

#[test]
fn protected_path_with_session_is_forwarded() {
    let key = key(1);
    let cookie = issue_session_cookie(&key, ALICE);
    let decision = session_middleware(&key, "/htm/index.html", Some(&cookie.value));
    assert_eq!(decision, GuardDecision::Authenticated(Session { user_id: ALICE }));
    assert!(decision.forwards());
    assert_eq!(decision.redirect(), None);
}

#[test]
fn cookie_sealed_under_another_name_is_no_session() {
    let key = key(1);
    let value = sealed(&key, "other", &text(ALICE));
    assert_eq!(read_session(&key, Some(&value)), None);
}

#[test]
fn guard_decides_from_path_and_session() {
    let session = Session { user_id: 9 };
    assert_eq!(guard("/", None), GuardDecision::Bypass);
    assert_eq!(guard("/", Some(session)), GuardDecision::Bypass);
    assert_eq!(guard("/htm/login", None), GuardDecision::Bypass);
    assert_eq!(guard("/htm/login", Some(session)), GuardDecision::Bypass);
    assert_eq!(guard("/htm/x", None), GuardDecision::Unauthenticated);
    assert_eq!(guard("/htm/x", Some(session)), GuardDecision::Authenticated(session));
}

#[test]
fn sealed_value_that_holds_no_uuid_is_no_session() {
    let key = key(1);
    for plain in ["", "alice", "a1a2a3a4-b1b2-c1c2-d1d2-d3d4d5d6d7d", "g1a2a3a4-b1b2-c1c2-d1d2-d3d4d5d6d7d8"]
    {
        let value = sealed(&key, "user_id", plain);
        assert_eq!(plaintext(&key, &value), Some(plain.to_owned()));
        assert_eq!(read_session(&key, Some(&value)), None);
    }
}

#[test]
fn session_ends_only_by_expiry_or_by_a_new_key() {
    // The server keeps no record of a session and asks storage nothing: the
    // cookie alone decides. A session cannot be revoked on the server.
    let old_key = key(1);
    let cookie = issue_session_cookie(&old_key, ALICE);
    let path = "/htm/index.html";
    for _ in 0..3 {
        assert_eq!(
            session_middleware(&old_key, path, cookie.presented_after(60)),
            GuardDecision::Authenticated(Session { user_id: ALICE })
        );
    }
    // It ends when the cookie expires ...
    assert_eq!(
        session_middleware(&old_key, path, cookie.presented_after(SESSION_MAX_AGE_SECS)),
        GuardDecision::Unauthenticated
    );
    // ... or when the key is rotated.
    let new_key = key(2);
    assert_eq!(
        session_middleware(&new_key, path, cookie.presented_after(60)),
        GuardDecision::Unauthenticated
    );
}

#[test]
fn key_is_loaded_from_base64() {
    // 64 bytes, each 0xff.
    let mut encoded = "/".repeat(85);
    encoded.push_str("w==");
    let key = match load_cookie_key(&encoded) {
        Ok(key) => key,
        Err(error) => panic!("{:?}", error),
    };
    assert_eq!(key.as_bytes(), &vec![0xffu8; 64]);

    // 66 bytes, each zero.
    let key = load_cookie_key(&"A".repeat(88)).unwrap_or_else(|error| panic!("{:?}", error));
    assert_eq!(key.as_bytes(), &vec![0u8; 66]);
}

#[test]
fn key_that_is_not_base64_is_refused() {
    for encoded in ["not base64!", "AAA", "AA=A", "\u{00e9}\u{00e9}\u{00e9}\u{00e9}"] {
        assert_eq!(
            load_cookie_key(encoded).err(),
            Some(InfraError::CookieKeyDecode { detail: "the cookie key is not base64".to_owned() })
        );
    }
}

#[test]
fn key_that_is_too_short_is_refused() {
    // Nothing, three bytes, and 63 bytes.
    for encoded in [String::new(), "AAAA".to_owned(), "A".repeat(84)] {
        assert_eq!(
            load_cookie_key(&encoded).err(),
            Some(InfraError::CookieKeyDecode {
                detail: "the cookie key is shorter than 64 bytes".to_owned()
            })
        );
    }
}

#[test]
fn session_cookie_has_the_given_value() {
    assert_eq!(
        session_cookie("sealed".to_owned()),
        SessionCookie {
            name: "user_id".to_owned(),
            value: "sealed".to_owned(),
            path: "/".to_owned(),
            secure: true,
            http_only: true,
            max_age_secs: 1800,
        }
    );
}
