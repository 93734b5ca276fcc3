//! Identifiers. Users and journal entries are identified by UUIDs, which the
//! library holds as their 128-bit values and exchanges as hyphenated text.

use uuid::Uuid;
use vstd::prelude::*;

verus! {

/// The 128-bit value that `text` denotes as a UUID, or `None` where it denotes none.
/// This is what `Uuid::parse_str` of the `uuid` crate makes of the text; it accepts
/// the simple, hyphenated, braced and URN forms, in either case of the hex digits.
pub uninterp spec fn uuid_text_value(text: Seq<char>) -> Option<u128>;

/// The lower-case hexadecimal digit for `d`, where `0 <= d < 16`.
pub open spec fn hex_digit(d: int) -> char {
    seq!['0', '1', '2', '3', '4', '5', '6', '7', '8', '9', 'a', 'b', 'c', 'd', 'e', 'f'][d]
}

/// The lowest `count` hexadecimal digits of `v`, most significant first.
pub open spec fn hex_digits(v: nat, count: nat) -> Seq<char>
    decreases count,
{
    if count == 0 {
        Seq::empty()
    } else {
        hex_digits(v / 16, (count - 1) as nat).push(hex_digit((v % 16) as int))
    }
}

/// The hyphenated form of a UUID: its 32 lower-case hex digits in groups of
/// 8, 4, 4, 4 and 12, separated by hyphens.
pub open spec fn hyphenated_text(id: u128) -> Seq<char> {
    let d = hex_digits(id as nat, 32);
    d.subrange(0, 8) + seq!['-'] + d.subrange(8, 12) + seq!['-'] + d.subrange(12, 16) + seq!['-']
        + d.subrange(16, 20) + seq!['-'] + d.subrange(20, 32)
}

/// Calls `Uuid::parse_str` and hands out the parsed value as a `u128`
/// (`Uuid::as_u128`). The contract only names the outcome: `Some` exactly where
/// the text denotes a UUID, and then its value.
#[verifier::external_body]
pub(crate) fn parse_uuid(text: &str) -> (r: Option<u128>)
    ensures
        r == uuid_text_value(text@),
{
    Uuid::parse_str(text).ok().map(|id| id.as_u128())
}

/// Calls `Uuid::hyphenated` on the UUID with value `id` (`Uuid::from_u128`) and
/// renders it. The contract claims the documented format, and that the text
/// parses back to `id`, which the crate documents of every form it generates.
#[verifier::external_body]
pub(crate) fn hyphenated(id: u128) -> (text: String)
    ensures
        text@ == hyphenated_text(id),
        uuid_text_value(text@) == Some(id),
{
    Uuid::from_u128(id).hyphenated().to_string()
}

/// Calls `Uuid::now_v7`, which draws on the clock and on randomness: nothing is
/// claimed of the value.
#[verifier::external_body]
pub(crate) fn now_v7() -> (id: u128)
{
    Uuid::now_v7().as_u128()
}

} // verus!
