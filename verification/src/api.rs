//! The sample API: a greeting, a sample error and the health report.

use crate::error::{sample_error, AppError, CallSite, ErrorKind};
use crate::text::concatenate;
use chrono::Utc;
use vstd::prelude::*;

verus! {

/// Who is greeted where the request names nobody.
pub const DEFAULT_NAME: &'static str = "mundo";

/// The message of the sample error.
pub const SAMPLE_MESSAGE: &'static str = "I am a sample error";

/// The query parameters of the greeting.
#[derive(Debug, PartialEq, Eq)]
pub struct GreetingParams {
    pub name: Option<String>,
}

/// A point in time: seconds since the Unix epoch, and the nanoseconds within
/// the second.
#[derive(Clone, Copy, Debug, PartialEq, Eq, Structural)]
pub struct Timestamp {
    pub secs: i64,
    pub nanos: u32,
}

/// The greeting and the time at which it was made.
#[derive(Debug, PartialEq, Eq)]
pub struct GreetingResponse {
    pub value: String,
    pub timestamp: Timestamp,
}

/// The health report.
#[derive(Debug, PartialEq, Eq)]
pub struct Health {
    pub status: String,
}

/// Calls `Utc::now` of `chrono` and hands out the seconds (`timestamp`) and
/// nanoseconds (`timestamp_subsec_nanos`) of the instant. It reads the clock:
/// nothing is claimed of the value.
#[verifier::external_body]
fn utc_now() -> (now: Timestamp)
{
    let now = Utc::now();
    Timestamp { secs: now.timestamp(), nanos: now.timestamp_subsec_nanos() }
}

/// A parameter as submitted counts as absent where it is empty.
pub fn empty_string_as_none(value: Option<String>) -> (r: Option<String>)
    ensures
        r == (match value {
            Some(text) => if text@.len() == 0 {
                None
            } else {
                Some(text)
            },
            None => None,
        }),
{
    match value {
        Some(text) => if text.as_str().is_empty() {
            None
        } else {
            Some(text)
        },
        None => None,
    }
}

/// The name that the parameters ask to greet, or the default one.
pub open spec fn greeted(params: Option<GreetingParams>) -> Seq<char> {
    match params {
        Some(GreetingParams { name: Some(name) }) => name@,
        _ => DEFAULT_NAME@,
    }
}

/// The greeting for the one whom the parameters name.
pub open spec fn greeting(params: Option<GreetingParams>) -> Seq<char> {
    "Hola "@ + greeted(params) + "!"@
}

/// The greeting made at `now`.
pub fn greeting_at(params: &Option<GreetingParams>, now: Timestamp) -> (r: GreetingResponse)
    ensures
        r.value@ == greeting(*params),
        r.timestamp == now,
{
    let mut value = match params {
        Some(GreetingParams { name: Some(name) }) => concatenate("Hola ", name.as_str()),
        _ => concatenate("Hola ", DEFAULT_NAME),
    };
    value.append("!");
    GreetingResponse { value, timestamp: now }
}

/// Greets the one whom the parameters name, or the world, and stamps the
/// greeting with the current time.
pub fn get_hello(params: &Option<GreetingParams>) -> (r: GreetingResponse)
    ensures
        r.value@ == greeting(*params),
{
    greeting_at(params, utc_now())
}

/// The sample error, raised at `location`.
pub fn get_error(location: CallSite) -> (e: AppError)
    ensures
        e@ == (ErrorKind::SampleError { message: SAMPLE_MESSAGE@, location: location@ }),
{
    sample_error(SAMPLE_MESSAGE.to_owned(), location)
}

/// The health report: the service is up.
pub fn get_health() -> (health: Health)
    ensures
        health.status@ == "OK"@,
{
    Health { status: "OK".to_owned() }
}

} // verus!
