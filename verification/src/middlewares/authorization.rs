//! From the `Authorization` header of a request to the account of the
//! caller.

use crate::config::Config;
use crate::database::{user_named, AppState};
use crate::errors::api_error::ApiError;
use crate::errors::auth_error::AuthError;
use crate::models::auth::token::{Claims, ClaimsData};
use crate::models::{text_of, Timestamp};
use crate::models::user::{User, UserData};
use crate::utils::jwt::{acceptable, accepted_claims, decode_jwt_at, token_claims};
use vstd::prelude::*;
use vstd::string::*;

verus! {

/// The `Authorization` header as it came in.
#[derive(Clone, Debug, PartialEq, Eq)]
pub enum AuthorizationHeader {
    /// The request has none.
    Missing,
    /// The header holds bytes that are not visible ASCII.
    Unreadable,
    /// The text of the header.
    Text(String),
}

/// Whether a character separates words: Unicode white space.
pub open spec fn blank(c: char) -> bool {
    let code = c as u32;
    ||| 0x09 <= code <= 0x0d
    ||| code == 0x20
    ||| code == 0x85
    ||| code == 0xa0
    ||| code == 0x1680
    ||| 0x2000 <= code <= 0x200a
    ||| code == 0x2028
    ||| code == 0x2029
    ||| code == 0x202f
    ||| code == 0x205f
    ||| code == 0x3000
}

/// The first place from `from` on where the text has a character that
/// is blank, if `wanted`, or is not, if not; the length of the text if there
/// is none.
pub open spec fn find(text: Seq<char>, from: int, wanted: bool) -> int
    decreases text.len() - from,
{
    if from < 0 || from >= text.len() {
        text.len() as int
    } else if blank(text[from]) == wanted {
        from
    } else {
        find(text, from + 1, wanted)
    }
}

/// The second word of a text, where words are separated by white space.
pub open spec fn second_word(text: Seq<char>) -> Option<Seq<char>> {
    let first = find(text, 0, false);
    let gap = find(text, first, true);
    let start = find(text, gap, false);
    let end = find(text, start, true);
    if start < text.len() {
        Some(text.subrange(start, end))
    } else {
        None
    }
}

/// Whether a text has a word at all.
pub open spec fn has_word(text: Seq<char>) -> bool {
    find(text, 0, false) < text.len()
}

/// `find` stays within the text.
proof fn lemma_find_bounds(text: Seq<char>, from: int, wanted: bool)
    requires
        0 <= from <= text.len(),
    ensures
        from <= find(text, from, wanted) <= text.len(),
    decreases text.len() - from,
{
    if from < text.len() && blank(text[from]) != wanted {
        lemma_find_bounds(text, from + 1, wanted);
    }
}

/// Whether a character separates words.
pub fn is_blank(c: char) -> (yes: bool)
    ensures
        yes == blank(c),
{
    let code = c as u32;
    (0x09 <= code && code <= 0x0d) || code == 0x20 || code == 0x85 || code == 0xa0 || code
        == 0x1680 || (0x2000 <= code && code <= 0x200a) || code == 0x2028 || code == 0x2029
        || code == 0x202f || code == 0x205f || code == 0x3000
}

/// Looks from `from` on for a character that is blank, or is not.
fn seek(text: &str, from: usize, wanted: bool) -> (place: usize)
    requires
        from <= text@.len(),
    ensures
        place == find(text@, from as int, wanted),
        from <= place <= text@.len(),
{
    let length = text.unicode_len();
    let mut i = from;
    while i < length
        invariant
            from <= i <= length,
            length == text@.len(),
            find(text@, from as int, wanted) == find(text@, i as int, wanted),
        decreases length - i,
    {
        if is_blank(text.get_char(i)) == wanted {
            return i;
        }
        i += 1;
    }
    i
}

/// The token that a header carries: its second word, after the scheme.
pub fn bearer_token(header: &str) -> (token: Option<String>)
    ensures
        text_of(token) == second_word(header@),
{
    let first = seek(header, 0, false);
    let gap = seek(header, first, true);
    let start = seek(header, gap, false);
    let end = seek(header, start, true);
    if start < header.unicode_len() {
        Some(header.substring_char(start, end).to_string())
    } else {
        None
    }
}

/// What the header of a request yields: the token, or why there is none. A
/// request without the header has no token; a header that cannot be read or
/// that holds no word is empty; a header of one word lacks the token.
pub open spec fn token_of(header: AuthorizationHeader) -> Result<Seq<char>, AuthError> {
    match header {
        AuthorizationHeader::Missing => Err(AuthError::MissingToken),
        AuthorizationHeader::Unreadable => Err(AuthError::EmptyHeader),
        AuthorizationHeader::Text(text) => match second_word(text@) {
            Some(token) => Ok(token),
            None => if has_word(text@) {
                Err(AuthError::MissingToken)
            } else {
                Err(AuthError::EmptyHeader)
            },
        },
    }
}

/// Takes the token out of the header of a request.
pub fn read_header(header: &AuthorizationHeader) -> (token: Result<String, AuthError>)
    ensures
        match token_of(*header) {
            Ok(text) => token matches Ok(found) && found@ == text,
            Err(error) => token == Err::<String, AuthError>(error),
        },
{
    match header {
        AuthorizationHeader::Missing => Err(AuthError::MissingToken),
        AuthorizationHeader::Unreadable => Err(AuthError::EmptyHeader),
        AuthorizationHeader::Text(text) => match bearer_token(text.as_str()) {
            Some(token) => Ok(token),
            None => {
                if seek(text.as_str(), 0, false) < text.as_str().unicode_len() {
                    Err(AuthError::MissingToken)
                } else {
                    Err(AuthError::EmptyHeader)
                }
            },
        },
    }
}

/// The claims that the header of a request yields at the moment `now`: those
/// of its token, if the token checks out.
pub open spec fn claims_of(header: AuthorizationHeader, config: Config, now: i64) -> Result<
    ClaimsData,
    AuthError,
> {
    match token_of(header) {
        Err(error) => Err(error),
        Ok(token) => match config.jwt_secret {
            None => Err(AuthError::InvalidToken),
            Some(secret) => match token_claims(token, secret@) {
                None => Err(AuthError::InvalidToken),
                Some(found) => if acceptable(found, now) {
                    Ok(accepted_claims(found))
                } else {
                    Err(AuthError::InvalidToken)
                },
            },
        },
    }
}

/// The claims of the token that a request carries, at the moment `now`. A
/// token that does not check out is `InvalidToken`, whatever the reason.
pub fn read_claims(header: &AuthorizationHeader, config: &Config, now: i64) -> (claims: Result<
    Claims,
    ApiError,
>)
    ensures
        match claims_of(*header, *config, now) {
            Ok(valid) => claims matches Ok(found) && found@ == valid,
            Err(error) => claims == Err::<Claims, ApiError>(ApiError::AuthError(error)),
        },
{
    let token = match read_header(header) {
        Ok(token) => token,
        Err(error) => {
            return Err(ApiError::AuthError(error));
        },
    };
    match decode_jwt_at(token.as_str(), config, now) {
        Ok(claims) => Ok(claims),
        Err(_) => Err(ApiError::AuthError(AuthError::InvalidToken)),
    }
}

/// What the lookup of the subject of a token yields: the account, or the
/// failure of the store that found no row.
pub fn identify(account: Option<User>) -> (identity: Result<User, ApiError>)
    ensures
        match account {
            Some(user) => identity == Ok::<User, ApiError>(user),
            None => identity matches Err(ApiError::DatabaseError(_)),
        },
{
    match account {
        Some(user) => Ok(user),
        None => Err(
            ApiError::DatabaseError(
                "no rows returned by a query that expected to return at least one row".to_string(),
            ),
        ),
    }
}

/// Whether a request is resolved as it should be at the moment `now`: a
/// header without a valid token is refused for what it lacks; the subject
/// of a valid token is looked up among the accounts, and the store fails if
/// it is not there.
pub open spec fn resolved_to(
    users: Seq<UserData>,
    config: Config,
    header: AuthorizationHeader,
    now: i64,
    identity: Result<User, ApiError>,
) -> bool {
    match claims_of(header, config, now) {
        Err(error) => identity == Err::<User, ApiError>(ApiError::AuthError(error)),
        Ok(claims) => match user_named(users, claims.sub) {
            Some(account) => identity matches Ok(user) && user@ == account,
            None => identity matches Err(ApiError::DatabaseError(_)),
        },
    }
}

/// Resolves the header of a request to the account of the caller, at the
/// moment `now`: the token must check out, and its subject must be the
/// username of an account.
pub fn authorize_at(
    state: &AppState,
    config: &Config,
    header: &AuthorizationHeader,
    now: i64,
) -> (identity: Result<User, ApiError>)
    requires
        state.db@.wf(),
    ensures
        resolved_to(state.db@.users, *config, *header, now, identity),
{
    let claims = match read_claims(header, config, now) {
        Ok(claims) => claims,
        Err(error) => {
            return Err(error);
        },
    };
    identify(state.db.select_user_by_username(claims.sub.as_str()))
}

/// Resolves the header of a request to the account of the caller, now.
pub fn authorize(state: &AppState, config: &Config, header: &AuthorizationHeader) -> (identity:
    Result<User, ApiError>)
    requires
        state.db@.wf(),
    ensures
        exists|now: i64| #[trigger] resolved_to(state.db@.users, *config, *header, now, identity),
{
    let now = Timestamp::now().unix_seconds();
    let identity = authorize_at(state, config, header, now);
    assert(resolved_to(state.db@.users, *config, *header, now, identity));
    identity
}

} // verus!
