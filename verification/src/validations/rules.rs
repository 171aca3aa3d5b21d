//! The rules on single fields.

use crate::models::text_of;
use vstd::prelude::*;
use vstd::string::*;

verus! {

/// Whether a text has at least `min` and at most `max` characters.
pub open spec fn length_between(text: Seq<char>, min: nat, max: nat) -> bool {
    min <= text.len() <= max
}

/// The length rule on a field that may be absent: an absent field passes.
pub open spec fn optional_length_between(text: Option<Seq<char>>, min: nat, max: nat) -> bool {
    match text {
        Some(text) => length_between(text, min, max),
        None => true,
    }
}

/// Whether a text is accepted as an e-mail address. This is the verdict of
/// the `validator` crate, which follows the HTML5 definition of a valid
/// address; it is not restated here.
pub uninterp spec fn email_accepted(address: Seq<char>) -> bool;

/// The e-mail rule on a field that may be absent: an absent field passes.
pub open spec fn optional_email_accepted(address: Option<Seq<char>>) -> bool {
    match address {
        Some(address) => email_accepted(address),
        None => true,
    }
}

/// Counts the characters of a text and compares the count with the bounds.
pub fn has_length_between(text: &str, min: usize, max: usize) -> (ok: bool)
    ensures
        ok == length_between(text@, min as nat, max as nat),
{
    let length = text.unicode_len();
    min <= length && length <= max
}

/// The length rule on a field that may be absent.
pub fn has_optional_length_between(text: &Option<String>, min: usize, max: usize) -> (ok: bool)
    ensures
        ok == optional_length_between(text_of(*text), min as nat, max as nat),
{
    match text {
        Some(text) => has_length_between(text.as_str(), min, max),
        None => true,
    }
}

/// Calls `validator::ValidateEmail::validate_email` on the text. The contract
/// only names the answer, which is the same whenever the text is.
#[verifier::external_body]
fn validate_email(address: &str) -> (ok: bool)
    ensures
        ok == email_accepted(address@),
{
    validator::ValidateEmail::validate_email(&address)
}

/// Whether a text is accepted as an e-mail address.
pub fn is_email(address: &str) -> (ok: bool)
    ensures
        ok == email_accepted(address@),
{
    validate_email(address)
}

/// The e-mail rule on a field that may be absent.
pub fn is_optional_email(address: &Option<String>) -> (ok: bool)
    ensures
        ok == optional_email_accepted(text_of(*address)),
{
    match address {
        Some(address) => is_email(address.as_str()),
        None => true,
    }
}

} // verus!
