use demo_lambda_axum::error::{AppError, CallSite};
use demo_lambda_axum::extract::{
    check_not_empty, FieldError, Validate, ValidatedForm, EMPTY_MESSAGE, LENGTH_CODE,
};
use demo_lambda_axum::journal::EntryForm;
use demo_lambda_axum::login::LoginForm;

fn login(username: &str, password: &str) -> LoginForm {
    LoginForm { username: username.to_owned(), password: password.to_owned() }
}

fn empty(field: &'static str) -> FieldError {
    FieldError { field, code: "length", message: "Can not be empty" }
}

fn here() -> CallSite {
    CallSite::new("src/extract.rs", 23, 9)
}

#[test]
fn rule_constants() {
    assert_eq!(LENGTH_CODE, "length");
    assert_eq!(EMPTY_MESSAGE, "Can not be empty");
}

#[test]
fn filled_login_form_is_valid() {
    assert_eq!(login("alice", "secret").validate(), Ok(()));
    assert_eq!(login("a", " ").validate(), Ok(()));
}

#[test]
fn empty_username_fails() {
    assert_eq!(login("", "secret").validate(), Err(vec![empty("username")]));
}

#[test]
fn empty_password_fails() {
    assert_eq!(login("alice", "").validate(), Err(vec![empty("password")]));
}

#[test]
fn both_empty_fail_in_the_order_of_the_fields() {
    assert_eq!(login("", "").validate(), Err(vec![empty("username"), empty("password")]));
}

#[test]
fn length_counts_characters() {
    // One character of several bytes is not empty.
    assert_eq!(login("\u{00e9}", "\u{1f600}").validate(), Ok(()));
}

#[test]
fn entry_form_needs_a_value() {
    let form = EntryForm { id: None, value: String::new() };
    assert_eq!(form.validate(), Err(vec![empty("value")]));
    let form = EntryForm { id: Some("junk".to_owned()), value: "x".to_owned() };
    assert_eq!(form.validate(), Ok(()));
}

#[test]
fn check_not_empty_adds_the_failure_of_the_field() {
    let mut errors = vec![empty("first")];
    check_not_empty(&mut errors, "second", "filled");
    assert_eq!(errors, vec![empty("first")]);
    check_not_empty(&mut errors, "third", "");
    assert_eq!(errors, vec![empty("first"), empty("third")]);
}

#[test]
fn valid_form_is_handed_out() {
    let decoded: Result<LoginForm, String> = Ok(login("alice", "secret"));
    assert_eq!(
        ValidatedForm::from_request(decoded, here()),
        Ok(ValidatedForm(login("alice", "secret")))
    );
}

#[test]
fn decode_failure_becomes_a_bad_request() {
    let decoded: Result<LoginForm, String> = Err("missing field `username`".to_owned());
    let result = ValidatedForm::from_request(decoded, here());
    assert_eq!(
        result,
        Err(AppError::BadRequestError {
            location: here(),
            source: "missing field `username`".to_owned()
        })
    );
    let rendered = result.unwrap_err().to_response();
    assert_eq!(rendered.status, 400);
    assert_eq!(rendered.resp.error.name, "BadRequestError");
    assert_eq!(rendered.resp.error.message, "Form rejection: missing field `username`");
}

#[test]
fn one_failed_field_is_described_by_its_line() {
    let decoded: Result<LoginForm, String> = Ok(login("", "secret"));
    assert_eq!(
        ValidatedForm::from_request(decoded, here()),
        Err(AppError::ValidationError {
            location: here(),
            source: "username: Can not be empty".to_owned()
        })
    );
}

#[test]
fn two_failed_fields_are_described_line_by_line_in_some_order() {
    let decoded: Result<LoginForm, String> = Ok(login("", ""));
    let error = ValidatedForm::from_request(decoded, here()).unwrap_err();
    let source = error.source().unwrap();
    let one = "username: Can not be empty\npassword: Can not be empty";
    let other = "password: Can not be empty\nusername: Can not be empty";
    assert!(source == one || source == other, "{}", source);
    assert_eq!(error.location(), &here());
    let rendered = error.to_response();
    assert_eq!(rendered.status, 400);
    assert_eq!(rendered.resp.error.name, "ValidationError");
    assert!(!rendered.resp.error.message.is_empty());
    assert!(rendered.resp.error.message.starts_with("Validation error: "));
}

#[test]
fn validation_failure_with_any_number_of_fields_is_a_400() {
    for (username, password) in [("", ""), ("", "p"), ("u", "")] {
        let decoded: Result<LoginForm, String> = Ok(login(username, password));
        let rendered = ValidatedForm::from_request(decoded, here()).unwrap_err().to_response();
        assert_eq!(rendered.status, 400);
        assert!(!rendered.resp.error.message.is_empty());
    }
}
