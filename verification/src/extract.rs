//! Validated forms: a form is taken from a request in two steps, decoding and
//! validation, and each failure becomes the error of its kind.

use crate::error::{axum_form_rejection, validation_error, AppError, CallSite, ErrorKind};
use std::borrow::Cow;
use validator::{ValidateLength, ValidationError, ValidationErrors};
use vstd::prelude::*;

verus! {

/// The code of the rule that bounds a field's length.
pub const LENGTH_CODE: &'static str = "length";

/// The message for a field that must not be empty.
pub const EMPTY_MESSAGE: &'static str = "Can not be empty";

/// One failed rule: the field, the rule's code and the message for the user.
#[derive(Clone, Copy, Debug, PartialEq, Eq)]
pub struct FieldError {
    pub field: &'static str,
    pub code: &'static str,
    pub message: &'static str,
}

/// The mathematical content of a [`FieldError`].
pub struct FieldErrorView {
    pub field: Seq<char>,
    pub code: Seq<char>,
    pub message: Seq<char>,
}

impl View for FieldError {
    type V = FieldErrorView;

    open spec fn view(&self) -> FieldErrorView {
        FieldErrorView { field: self.field@, code: self.code@, message: self.message@ }
    }
}

/// The views of a sequence of field errors.
pub open spec fn views(errors: Seq<FieldError>) -> Seq<FieldErrorView> {
    errors.map_values(|e: FieldError| e@)
}

/// Whether no field occurs twice.
pub open spec fn distinct_fields(errors: Seq<FieldErrorView>) -> bool {
    forall|i: int, j: int| 0 <= i < j < errors.len() ==> errors[i].field != errors[j].field
}

/// The failure of the rule that `field` must not be empty, on the value
/// `value`: no error where the value has a character, one error otherwise.
pub open spec fn must_not_be_empty(field: Seq<char>, value: Seq<char>) -> Seq<FieldErrorView> {
    if value.len() >= 1 {
        Seq::empty()
    } else {
        seq![FieldErrorView { field, code: LENGTH_CODE@, message: EMPTY_MESSAGE@ }]
    }
}

/// The line that describes one failed field: the field, a colon and the message.
pub open spec fn line(error: FieldErrorView) -> Seq<char> {
    error.field + ": "@ + error.message
}

/// The lines, separated by line feeds.
pub open spec fn joined(lines: Seq<Seq<char>>) -> Seq<char>
    decreases lines.len(),
{
    if lines.len() == 0 {
        Seq::empty()
    } else if lines.len() == 1 {
        lines[0]
    } else {
        lines[0] + seq!['\n'] + joined(lines.drop_first())
    }
}

/// The lines of the failed fields in the given order, separated by line feeds.
pub open spec fn described(order: Seq<FieldErrorView>) -> Seq<char> {
    joined(order.map_values(|e: FieldErrorView| line(e)))
}

/// Whether `text` describes the failed fields: one line for each of them, in
/// some order.
pub open spec fn is_description(errors: Seq<FieldErrorView>, text: Seq<char>) -> bool {
    exists|order: Seq<FieldErrorView>|
        order.to_multiset() == errors.to_multiset() && text == #[trigger] described(order)
}

/// Calls `ValidateLength::validate_length` of `validator` on the text, with
/// `min` as the least length and no other bound. The crate counts the
/// characters of the text and accepts it where there are at least `min`.
#[verifier::external_body]
fn has_min_length(value: &str, min: u64) -> (r: bool)
    ensures
        r == (value@.len() >= min),
{
    value.validate_length(Some(min), None, None)
}

/// Puts the field errors into a `ValidationErrors` of `validator`, each with
/// `ValidationErrors::add`, and formats it with its `Display`. For fields that
/// are all different the crate writes one line for each, the field, `": "` and
/// the message, with a line feed between two lines; it keeps the fields in a
/// hash map, so the order of the lines is not determined.
#[verifier::external_body]
fn describe(errors: &Vec<FieldError>) -> (text: String)
    requires
        distinct_fields(views(errors@)),
    ensures
        is_description(views(errors@), text@),
{
    let mut all = ValidationErrors::new();
    for e in errors {
        all.add(e.field, ValidationError::new(e.code).with_message(Cow::Borrowed(e.message)));
    }
    all.to_string()
}

/// A form with rules on its fields.
pub trait Validate {
    /// The rules that the form fails, in the order of its fields.
    spec fn failures(&self) -> Seq<FieldErrorView>;

    /// Checks the rules: `Ok` where none fails, else the failed ones.
    fn validate(&self) -> (r: Result<(), Vec<FieldError>>)
        ensures
            r is Ok <==> self.failures().len() == 0,
            r matches Err(errors) ==> views(errors@) == self.failures() && distinct_fields(
                self.failures(),
            ),
    ;
}

/// Checks that `value` is not empty and, where it is, adds the failure of
/// `field` to `errors`.
pub fn check_not_empty(errors: &mut Vec<FieldError>, field: &'static str, value: &str)
    ensures
        views(final(errors)@) == views(old(errors)@) + must_not_be_empty(field@, value@),
{
    if !has_min_length(value, 1) {
        errors.push(FieldError { field, code: LENGTH_CODE, message: EMPTY_MESSAGE });
    }
    assert(views(errors@) =~= views(old(errors)@) + must_not_be_empty(field@, value@));
}

/// A form that was decoded and passed validation.
#[derive(Debug, PartialEq, Eq)]
pub struct ValidatedForm<T>(pub T);

impl<T: Validate> ValidatedForm<T> {
    /// Takes a form from the outcome of decoding the request: `Ok` with the
    /// decoded form, or `Err` with the text of the decode failure. A decode
    /// failure becomes a bad-request error with that text; a decoded form that
    /// fails a rule becomes a validation error whose cause describes the failed
    /// fields, which for a single failed field is its line; any other form is
    /// handed out.
    pub fn from_request(decoded: Result<T, String>, location: CallSite) -> (r: Result<
        ValidatedForm<T>,
        AppError,
    >)
        ensures
            match decoded {
                Err(rejection) => r matches Err(e) && e@ == (ErrorKind::BadRequestError {
                    location: location@,
                    source: rejection@,
                }),
                Ok(form) => if form.failures().len() == 0 {
                    r matches Ok(valid) && valid.0 == form
                } else {
                    r matches Err(e) && e@ matches ErrorKind::ValidationError {
                        location: at,
                        source,
                    } && at == location@ && is_description(form.failures(), source) && (
                    form.failures().len() == 1 ==> source == line(form.failures()[0]))
                },
            },
    {
        match decoded {
            Err(rejection) => Err(axum_form_rejection(location, rejection)),
            Ok(form) => match form.validate() {
                Ok(()) => Ok(ValidatedForm(form)),
                Err(errors) => {
                    let text = describe(&errors);
                    proof {
                        if form.failures().len() == 1 {
                            assert(form.failures() =~= seq![form.failures()[0]]);
                            lemma_single_description(form.failures()[0], text@);
                        }
                    }
                    Err(validation_error(location, text))
                },
            },
        }
    }
}

/// The description of a single failed field is its line.
pub proof fn lemma_single_description(error: FieldErrorView, text: Seq<char>)
    requires
        is_description(seq![error], text),
    ensures
        text == line(error),
{
    let order = choose|order: Seq<FieldErrorView>|
        order.to_multiset() == seq![error].to_multiset() && text == #[trigger] described(order);
    order.to_multiset_ensures();
    seq![error].to_multiset_ensures();
    assert(order.len() == 1);
    assert(seq![error].to_multiset().count(error) > 0) by {
        assert(seq![error][0] == error);
    }
    assert(order.contains(error));
    assert(order[0] == error);
}

} // verus!
