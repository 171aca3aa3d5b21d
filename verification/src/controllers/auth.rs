//! Signing in, signing up, and checking a token.

use crate::config::Config;
use crate::controllers::user::{add_user, add_user_with, added_or_refused, as_requested, user_added};
use crate::database::{has_username, user_named, AppState};
use crate::errors::api_error::ApiError;
use crate::models::{Id, Timestamp};
use crate::models::auth::LoginPayload;
use crate::models::auth::token::VerifyTokenPayload;
use crate::models::user::{
    registration, role_name, CreateUserPayload, RegisterPayload, Status, User, UserData,
};
use crate::utils::hashing::{hashed_as, password_matches, verify_password};
use crate::utils::jwt::{generate_jwt_at, issued, valid_at, validate_jwt_at};
use vstd::prelude::*;

verus! {

/// What a request to sign in is answered with at the moment `now`, given the
/// account with the username of the request: an unknown username is
/// `NotFound`, an account that is not active is `Unauthorized`, a password
/// that does not match is `WrongPassword`, and otherwise a token is issued
/// for the username with the role of the account.
pub open spec fn signed_in(
    account: Option<UserData>,
    payload: LoginPayload,
    config: Config,
    now: i64,
    token: Result<String, ApiError>,
) -> bool {
    match account {
        None => token matches Err(ApiError::NotFound),
        Some(user) => if user.status != Status::Active {
            token matches Err(ApiError::Unauthorized)
        } else if !password_matches(payload.password@, user.password_hash) {
            token matches Err(ApiError::WrongPassword)
        } else {
            issued(payload.username@, role_name(user.role), config, now, token)
        },
    }
}

/// Answers a request to sign in at the moment `now`, given the account with
/// the username of the request, if there is one.
pub fn sign_in_at(account: Option<&User>, payload: &LoginPayload, config: &Config, now: i64) -> (token:
    Result<String, ApiError>)
    ensures
        signed_in(
            match account {
                Some(user) => Some(user@),
                None => None,
            },
            *payload,
            *config,
            now,
            token,
        ),
{
    let user = match account {
        Some(user) => user,
        None => {
            return Err(ApiError::NotFound);
        },
    };
    if user.status != Status::Active {
        return Err(ApiError::Unauthorized);
    }
    match verify_password(payload.password.as_str(), user.password_hash.as_str()) {
        Ok(_) => {},
        Err(error) => {
            return Err(error);
        },
    }
    let role = user.role.to_string();
    generate_jwt_at(payload.username.as_str(), role.as_str(), config, now)
}

/// `POST /auth/login` at a given moment.
pub fn login_at(state: &AppState, config: &Config, payload: &LoginPayload, now: i64) -> (token:
    Result<String, ApiError>)
    requires
        state.db@.wf(),
    ensures
        signed_in(user_named(state.db@.users, payload.username@), *payload, *config, now, token),
{
    let account = state.db.select_user_by_username(payload.username.as_str());
    match &account {
        Some(user) => sign_in_at(Some(user), payload, config, now),
        None => sign_in_at(None, payload, config, now),
    }
}

/// `POST /auth/login`: answers a request to sign in with a token.
pub fn login(state: &AppState, config: &Config, payload: &LoginPayload) -> (token: Result<
    String,
    ApiError,
>)
    requires
        state.db@.wf(),
    ensures
        exists|now: i64| #[trigger]
            signed_in(
                user_named(state.db@.users, payload.username@),
                *payload,
                *config,
                now,
                token,
            ),
{
    let now = Timestamp::now().unix_seconds();
    let token = login_at(state, config, payload, now);
    assert(signed_in(user_named(state.db@.users, payload.username@), *payload, *config, now, token));
    token
}

/// `POST /auth/register` with the outcome of hashing the password, the
/// identifier and the moment given: creates an account of role `User` for a
/// visitor and answers with its identifier.
pub fn register_with(
    state: &mut AppState,
    payload: RegisterPayload,
    hashed: Result<String, ApiError>,
    id: Id,
    now: Timestamp,
) -> (created: Result<Id, ApiError>)
    requires
        old(state).db@.wf(),
    ensures
        final(state).db@.wf(),
        user_added(
            old(state).db@,
            final(state).db@,
            registration(payload),
            hashed,
            id,
            now,
            created,
        ),
{
    let user_payload = CreateUserPayload::from(payload);
    add_user_with(state, &user_payload, hashed, id, now)
}

/// `POST /auth/register`: creates an account of role `User` for a visitor
/// and answers with its identifier. The rules on the fields must hold, and
/// the username must be free: a second account under a username is
/// `AlreadyExists`. The only other failures are those of the hasher and of
/// the store.
pub fn register(state: &mut AppState, payload: RegisterPayload) -> (created: Result<Id, ApiError>)
    requires
        old(state).db@.wf(),
    ensures
        final(state).db@.wf(),
        exists|hashed: Result<String, ApiError>, id: Id, now: Timestamp|
            hashed_as(payload.password@, hashed) && #[trigger] user_added(
                old(state).db@,
                final(state).db@,
                registration(payload),
                hashed,
                id,
                now,
                created,
            ),
        added_or_refused(old(state).db@, final(state).db@, registration(payload), created),
        created is Ok ==> has_username(final(state).db@.users, payload.username@),
{
    let user_payload = CreateUserPayload::from(payload);
    let created = add_user(state, &user_payload);
    proof {
        if created is Ok {
            let last = state.db@.users.len() - 1;
            assert(state.db@.users[last].username == payload.username@);
        }
    }
    created
}

/// What a request to have a token checked is answered with at the moment
/// `now`.
pub open spec fn verified(
    config: Config,
    payload: VerifyTokenPayload,
    now: i64,
    answer: Result<String, ApiError>,
) -> bool {
    if valid_at(payload.token@, config, now) {
        answer matches Ok(text) && text@ == "Token is valid!"@
    } else if config.jwt_secret is None {
        answer matches Err(ApiError::ConfigError(_))
    } else {
        answer matches Err(ApiError::JWTError(_))
    }
}

/// `POST /auth/verify` at a given moment: confirms a token that is valid.
pub fn verify_at(config: &Config, payload: &VerifyTokenPayload, now: i64) -> (answer: Result<
    String,
    ApiError,
>)
    ensures
        verified(*config, *payload, now, answer),
{
    match validate_jwt_at(payload.token.as_str(), config, now) {
        Ok(()) => Ok("Token is valid!".to_string()),
        Err(error) => Err(error),
    }
}

/// `POST /auth/verify`: confirms a token that is valid now.
pub fn verify(config: &Config, payload: &VerifyTokenPayload) -> (answer: Result<String, ApiError>)
    ensures
        exists|now: i64| #[trigger] verified(*config, *payload, now, answer),
{
    let now = Timestamp::now().unix_seconds();
    let answer = verify_at(config, payload, now);
    assert(verified(*config, *payload, now, answer));
    answer
}

/// An account that was created active signs in with the password it was
/// created with: the request is answered as issuing a token is, with the
/// role of the account.
pub proof fn lemma_created_account_signs_in(
    user: UserData,
    created: CreateUserPayload,
    payload: LoginPayload,
    config: Config,
    now: i64,
    token: Result<String, ApiError>,
)
    requires
        as_requested(user, created),
        user.status == Status::Active,
        payload.username@ == created.username@,
        payload.password@ == created.password@,
        signed_in(Some(user), payload, config, now, token),
    ensures
        issued(payload.username@, role_name(user.role), config, now, token),
        !(token matches Err(ApiError::WrongPassword)),
        !(token matches Err(ApiError::NotFound)),
        !(token matches Err(ApiError::Unauthorized)),
{
}

} // verus!
