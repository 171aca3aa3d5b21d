//! The data the service works on.

use std::fmt::Write;
use vstd::prelude::*;

pub mod auth;
pub mod status;
pub mod ticket;
pub mod user;

verus! {

/// A 128-bit identifier of a stored record.
#[derive(Clone, Copy, Debug, PartialEq, Eq, Structural)]
pub struct Id {
    pub value: u128,
}

/// An instant, in microseconds since the Unix epoch (UTC).
#[derive(Clone, Copy, Debug, PartialEq, Eq, Structural)]
pub struct Timestamp {
    pub micros: i64,
}

impl Id {
    /// Draws a random identifier (`uuid::Uuid::new_v4`). Nothing is promised
    /// of the value: it differs from call to call.
    #[verifier::external_body]
    pub(crate) fn random() -> (id: Id) {
        Id { value: uuid::Uuid::new_v4().as_u128() }
    }

    /// Draws an identifier that starts with the current time, so that later
    /// ones sort after earlier ones (`uuid::Uuid::now_v7`). Nothing is
    /// promised of the value: it depends on the clock and on chance.
    #[verifier::external_body]
    pub(crate) fn time_ordered() -> (id: Id) {
        Id { value: uuid::Uuid::now_v7().as_u128() }
    }
}

/// The whole seconds since the Unix epoch up to an instant.
pub open spec fn seconds_of(instant: Timestamp) -> int {
    instant.micros as int / 1_000_000
}

impl Timestamp {
    /// The whole seconds since the Unix epoch up to this instant.
    pub fn unix_seconds(&self) -> (seconds: i64)
        ensures
            seconds == seconds_of(*self),
    {
        if self.micros >= 0 {
            self.micros / 1_000_000
        } else {
            -1 - ((-1 - self.micros) / 1_000_000)
        }
    }

    /// Reads the clock (`chrono::Utc::now`). Nothing is promised of the
    /// value.
    #[verifier::external_body]
    pub(crate) fn now() -> (now: Timestamp) {
        Timestamp { micros: chrono::Utc::now().timestamp_micros() }
    }
}

/// An identifier written out: 32 lower-case hexadecimal digits in five
/// hyphenated groups, as `uuid` prints them.
pub uninterp spec fn id_text(value: u128) -> Seq<char>;

/// An instant written out in UTC after a pattern, as `chrono` prints it;
/// `None` for an instant beyond the years that `chrono` counts, and for a
/// pattern that `chrono` does not take.
pub uninterp spec fn instant_text(micros: i64, pattern: Seq<char>) -> Option<Seq<char>>;

/// How an instant is shown: written out as `YYYY-MM-DD HH:MM:SS`, or `null`
/// where it cannot be.
pub open spec fn shown_instant(instant: Timestamp) -> Seq<char> {
    match instant_text(instant.micros, "%Y-%m-%d %H:%M:%S"@) {
        Some(text) => text,
        None => "null"@,
    }
}

/// Writes an identifier out with `uuid::Uuid::from_u128` and the hyphenated
/// form that `to_string` gives. The contract only names the text: the same
/// value always gives the same one.
#[verifier::external_body]
fn print_id(value: u128) -> (text: String)
    ensures
        text@ == id_text(value),
{
    uuid::Uuid::from_u128(value).to_string()
}

/// Writes an instant out with `chrono::DateTime::from_timestamp_micros` and
/// `format` with the pattern. The text is written into a `String`, so that a
/// pattern that `chrono` does not take gives `None` and no panic. The
/// contract only names the text: the same instant and pattern always give
/// the same one.
#[verifier::external_body]
fn print_instant(micros: i64, pattern: &str) -> (text: Option<String>)
    ensures
        text_of(text) == instant_text(micros, pattern@),
{
    let instant = chrono::DateTime::from_timestamp_micros(micros)?.naive_utc();
    let mut text = String::new();
    write!(text, "{}", instant.format(pattern)).ok().map(|_| text)
}

impl Id {
    /// The identifier written out.
    pub fn to_string(&self) -> (text: String)
        ensures
            text@ == id_text(self.value),
    {
        print_id(self.value)
    }
}

impl Timestamp {
    /// The instant as it is shown.
    pub fn to_string(&self) -> (text: String)
        ensures
            text@ == shown_instant(*self),
    {
        match print_instant(self.micros, "%Y-%m-%d %H:%M:%S") {
            Some(text) => text,
            None => "null".to_string(),
        }
    }
}

/// The body of a delete request.
#[derive(Clone, Copy, Debug, PartialEq, Eq, Structural)]
pub struct DeletePayload {
    pub id: Id,
}

/// The characters of an optional text.
pub open spec fn text_of(value: Option<String>) -> Option<Seq<char>> {
    match value {
        Some(text) => Some(text@),
        None => None,
    }
}

/// Whether two texts hold the same characters.
pub fn same_text(left: &str, right: &str) -> (same: bool)
    ensures
        same == (left@ == right@),
{
    left.to_string() == right.to_string()
}

/// Copies an optional text.
pub fn clone_text(value: &Option<String>) -> (copy: Option<String>)
    ensures
        text_of(copy) == text_of(*value),
{
    match value {
        Some(text) => Some(text.clone()),
        None => None,
    }
}

} // verus!
