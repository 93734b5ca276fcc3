//! The login handler's decision: whether the submitted credentials open a
//! session, and what the client is sent if they do.

use crate::extract::{
    check_not_empty, distinct_fields, must_not_be_empty, views, FieldError, FieldErrorView,
    Validate,
};
use crate::redirect::{Redirect, RedirectView, SEE_OTHER};
use crate::session::{is_issued, issue_session_cookie, CookieKey, SessionCookie};
use vstd::prelude::*;

verus! {

/// Where a successful login sends the client.
pub const INDEX_PATH: &'static str = "/htm/index";

/// A user as stored.
#[derive(Debug, PartialEq, Eq)]
pub struct User {
    pub id: u128,
    pub name: String,
    pub password: String,
}

/// The login form. Neither field may be empty.
#[derive(Debug, PartialEq, Eq)]
pub struct LoginForm {
    pub username: String,
    pub password: String,
}

impl Validate for LoginForm {
    open spec fn failures(&self) -> Seq<FieldErrorView> {
        must_not_be_empty("username"@, self.username@) + must_not_be_empty(
            "password"@,
            self.password@,
        )
    }

    fn validate(&self) -> (r: Result<(), Vec<FieldError>>) {
        let mut errors: Vec<FieldError> = Vec::new();
        assert(views(errors@) =~= Seq::<FieldErrorView>::empty());
        check_not_empty(&mut errors, "username", self.username.as_str());
        check_not_empty(&mut errors, "password", self.password.as_str());
        proof {
            reveal_strlit("username");
            reveal_strlit("password");
            assert("username"@[0] != "password"@[0]);
            assert(views(errors@) =~= self.failures());
            assert(distinct_fields(self.failures()));
        }
        if errors.len() == 0 {
            Ok(())
        } else {
            Err(errors)
        }
    }
}

/// What the login handler answers.
#[derive(Debug, PartialEq, Eq)]
pub enum LoginOutcome {
    /// The credentials are good: the client is sent the session cookie and a
    /// redirect to the index page.
    Granted { cookie: SessionCookie, redirect: Redirect },
    /// The credentials are not good: the login page is shown again, and no
    /// cookie is set.
    Denied,
}

/// Whether the submitted password opens a session, given the user found under
/// the submitted name: there is such a user, and the passwords are the same.
pub open spec fn credentials_match(password: Seq<char>, user: Option<User>) -> bool {
    user matches Some(u) && u.password@ == password
}

/// Decides a login, given the form and the user that storage holds under the
/// submitted name. Good credentials are the only way to a session cookie: it
/// is issued for the user's identifier, and the client is redirected to the
/// index page.
pub fn post_login(key: &CookieKey, login: &LoginForm, user: Option<User>) -> (r: LoginOutcome)
    ensures
        match r {
            LoginOutcome::Granted { cookie, redirect } => {
                &&& credentials_match(login.password@, user)
                &&& is_issued(key@, user->0.id, cookie@)
                &&& redirect@ == (RedirectView { status: SEE_OTHER, location: INDEX_PATH@ })
            },
            LoginOutcome::Denied => !credentials_match(login.password@, user),
        },
{
    match user {
        Some(found) => {
            if login.password == found.password {
                let cookie = issue_session_cookie(key, found.id);
                LoginOutcome::Granted { cookie, redirect: Redirect::to(INDEX_PATH) }
            } else {
                LoginOutcome::Denied
            }
        },
        None => LoginOutcome::Denied,
    }
}

} // verus!
