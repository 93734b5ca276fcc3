//! Redirect responses handed back to the HTTP layer.

use crate::text::concatenate;
use chrono::Utc;
use vstd::prelude::*;

verus! {

/// Status of a temporary redirect, which keeps the request method.
pub const TEMPORARY_REDIRECT: u16 = 307;

/// Status of a "see other" redirect, which turns the follow-up request into a GET.
pub const SEE_OTHER: u16 = 303;

/// The index page.
pub const INDEX_PAGE: &'static str = "/htm/index.html";

/// What precedes the date in the path of the index page of a date.
pub const INDEX_PAGE_PREFIX: &'static str = "/htm/index.html/";

/// A redirect: a status code and the target of the `Location` header. It never
/// has a body.
#[derive(Debug, PartialEq, Eq)]
pub struct Redirect {
    pub status: u16,
    pub location: String,
}

/// The mathematical content of a [`Redirect`].
pub struct RedirectView {
    pub status: u16,
    pub location: Seq<char>,
}

impl View for Redirect {
    type V = RedirectView;

    open spec fn view(&self) -> RedirectView {
        RedirectView { status: self.status, location: self.location@ }
    }
}

impl Redirect {
    /// A 307 redirect to `uri`.
    pub fn temporary(uri: &str) -> (r: Redirect)
        ensures
            r@ == (RedirectView { status: TEMPORARY_REDIRECT, location: uri@ }),
    {
        Redirect { status: TEMPORARY_REDIRECT, location: uri.to_owned() }
    }

    /// A 303 redirect to `uri`.
    pub fn to(uri: &str) -> (r: Redirect)
        ensures
            r@ == (RedirectView { status: SEE_OTHER, location: uri@ }),
    {
        Redirect { status: SEE_OTHER, location: uri.to_owned() }
    }
}

/// Calls `Utc::now` of `chrono` and formats the date with `%Y-%m-%d`. It reads
/// the clock: nothing is claimed of the text.
#[verifier::external_body]
fn today() -> (date: String)
{
    Utc::now().format("%Y-%m-%d").to_string()
}

/// The redirect from the root to the index page.
pub fn redirect_to_index() -> (r: Redirect)
    ensures
        r@ == (RedirectView { status: TEMPORARY_REDIRECT, location: INDEX_PAGE@ }),
{
    Redirect::temporary(INDEX_PAGE)
}

/// The redirect to the index page of the date written in `date`.
pub fn redirect_to_index_of(date: &str) -> (r: Redirect)
    ensures
        r@ == (RedirectView { status: TEMPORARY_REDIRECT, location: INDEX_PAGE_PREFIX@ + date@ }),
{
    let location = concatenate(INDEX_PAGE_PREFIX, date);
    Redirect::temporary(location.as_str())
}

/// The redirect from the index page to the index page of today's date.
pub fn redirect_to_index_with_date() -> (r: Redirect)
    ensures
        r@.status == TEMPORARY_REDIRECT,
        INDEX_PAGE_PREFIX@.is_prefix_of(r@.location),
{
    let date = today();
    redirect_to_index_of(date.as_str())
}

} // verus!
