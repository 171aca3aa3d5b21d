//! The endpoints on accounts. All of them are kept for privileged roles.

use crate::database::{
    distinct_user_ids, has_user, has_username, public_user, public_users, row_count, user_views,
    AppState, TablesData,
};
use crate::database::repositories::user_repository::{
    carried_out, changed_with, lemma_stored_user_is_found, username_clash, UserRepositoryImpl,
};
use crate::database::users::without_user;
use crate::errors::api_error::ApiError;
use crate::models::auth::access::{may_manage, require_manager};
use crate::models::{text_of, DeletePayload, Id, Timestamp};
use crate::models::user::{
    new_user, CreateUserPayload, Role, Status, UpdateUserPayload, User, UserData, UserPublic,
};
use crate::utils::hashing::{encrypt_password, hashed_as, password_matches};
use crate::validations::existence::user_exists;
use crate::validations::uniqueness::is_user_unique;
use vstd::prelude::*;

verus! {

/// `GET /users/count`: how many accounts there are.
pub fn count_users(state: &AppState, current_user: &User) -> (count: Result<i64, ApiError>)
    ensures
        may_manage(*current_user) ==> count == Ok::<i64, ApiError>(
            row_count(state.db@.users.len()) as i64,
        ),
        !may_manage(*current_user) ==> count matches Err(ApiError::Unauthorized),
{
    match require_manager(current_user) {
        Ok(()) => UserRepositoryImpl::count(state),
        Err(error) => Err(error),
    }
}

/// `GET /users`: all accounts, without their password hashes.
pub fn find_all_users(state: &AppState, current_user: &User) -> (users: Result<
    Vec<UserPublic>,
    ApiError,
>)
    ensures
        may_manage(*current_user) ==> (users matches Ok(rows) && user_views(rows@)
            == public_users(state.db@.users)),
        !may_manage(*current_user) ==> users matches Err(ApiError::Unauthorized),
{
    match require_manager(current_user) {
        Ok(()) => UserRepositoryImpl::find_all(state),
        Err(error) => Err(error),
    }
}

/// `GET /users/{id}`: one account; `NotFound` if there is none with this
/// identifier.
pub fn find_user_by_id(state: &AppState, current_user: &User, id: Id) -> (user: Result<
    UserPublic,
    ApiError,
>)
    requires
        state.db@.wf(),
    ensures
        !may_manage(*current_user) ==> user matches Err(ApiError::Unauthorized),
        may_manage(*current_user) ==> (match public_user(state.db@.users, id) {
            Some(shown) => user matches Ok(found) && found@ == shown,
            None => user matches Err(ApiError::NotFound),
        }),
{
    match require_manager(current_user) {
        Ok(()) => {},
        Err(error) => {
            return Err(error);
        },
    }
    match UserRepositoryImpl::find_by_id(state, id) {
        Ok(Some(user)) => Ok(user),
        Ok(None) => Err(ApiError::NotFound),
        Err(error) => Err(error),
    }
}

/// Whether a stored account is the one that a request asked for: every field
/// but the identifier and the times is as requested, and the password of the
/// request matches the hash that is stored.
pub open spec fn as_requested(user: UserData, payload: CreateUserPayload) -> bool {
    &&& user.username == payload.username@
    &&& user.email == text_of(payload.email)
    &&& user.first_name == text_of(payload.first_name)
    &&& user.last_name == text_of(payload.last_name)
    &&& user.role == payload.role.unwrap_or(Role::User)
    &&& user.status == payload.status.unwrap_or(Status::Active)
    &&& password_matches(payload.password@, user.password_hash)
}

/// What a request for a new account is answered with, where `hashed` is the
/// outcome of hashing the password, `id` the identifier that was drawn for
/// the account and `now` the moment. The checks are made in this order, and
/// the first that fails decides: the request must break no rule; the
/// username must be free; the password must have been hashed; the identifier
/// must be free, or else the store fails. A request that fails stores
/// nothing. Otherwise the account is stored and the request is answered with
/// its identifier.
pub open spec fn user_added(
    tables: TablesData,
    after: TablesData,
    payload: CreateUserPayload,
    hashed: Result<String, ApiError>,
    id: Id,
    now: Timestamp,
    created: Result<Id, ApiError>,
) -> bool {
    if payload.broken_rules().len() > 0 {
        (created matches Err(ApiError::ValidationError(errors)) && errors@
            == payload.broken_rules()) && after == tables
    } else if has_username(tables.users, payload.username@) {
        (created matches Err(ApiError::AlreadyExists)) && after == tables
    } else {
        match hashed {
            Err(error) => created == Err::<Id, ApiError>(error) && after == tables,
            Ok(hash) => if has_user(tables.users, id) {
                (created matches Err(ApiError::DatabaseError(_))) && after == tables
            } else {
                &&& created == Ok::<Id, ApiError>(id)
                &&& after.tickets == tables.tickets
                &&& after.users == tables.users.push(new_user(id, payload, hash@, now))
            },
        }
    }
}

/// What follows for a request for a new account from how it was answered:
/// if with an identifier, the account was added as it was asked for; if with
/// a failure, nothing was stored, the failure is `ValidationError` exactly
/// if the request broke a rule, `AlreadyExists` exactly if it broke none and
/// the username was taken, and else that of the hasher or of the store.
pub open spec fn added_or_refused(
    tables: TablesData,
    after: TablesData,
    payload: CreateUserPayload,
    created: Result<Id, ApiError>,
) -> bool {
    match created {
        Ok(id) => {
            &&& payload.broken_rules().len() == 0
            &&& !has_username(tables.users, payload.username@)
            &&& !has_user(tables.users, id)
            &&& after.tickets == tables.tickets
            &&& after.users.len() == tables.users.len() + 1
            &&& after.users.drop_last() == tables.users
            &&& after.users.last().id == id
            &&& as_requested(after.users.last(), payload)
        },
        Err(error) => {
            &&& after == tables
            &&& error is ValidationError <==> payload.broken_rules().len() > 0
            &&& error is AlreadyExists <==> payload.broken_rules().len() == 0 && has_username(
                tables.users,
                payload.username@,
            )
            &&& error is ValidationError || error is AlreadyExists || error is EncryptionError
                || error is DatabaseError
        },
    }
}

/// A request for a new account that was answered was added or refused.
pub proof fn lemma_added_or_refused(
    tables: TablesData,
    after: TablesData,
    payload: CreateUserPayload,
    hashed: Result<String, ApiError>,
    id: Id,
    now: Timestamp,
    created: Result<Id, ApiError>,
)
    requires
        hashed_as(payload.password@, hashed),
        user_added(tables, after, payload, hashed, id, now, created),
    ensures
        added_or_refused(tables, after, payload, created),
{
    if created is Ok {
        let user = new_user(id, payload, hashed->Ok_0@, now);
        assert(tables.users.push(user).drop_last() =~= tables.users);
        assert(tables.users.push(user).last() == user);
    }
}

/// Checks a request for a new account: the rules on the fields must hold and
/// the username must be free.
pub fn check_new_user(state: &AppState, payload: &CreateUserPayload) -> (verdict: Result<
    (),
    ApiError,
>)
    ensures
        if payload.broken_rules().len() > 0 {
            verdict matches Err(ApiError::ValidationError(errors)) && errors@
                == payload.broken_rules()
        } else if has_username(state.db@.users, payload.username@) {
            verdict matches Err(ApiError::AlreadyExists)
        } else {
            verdict is Ok
        },
{
    match payload.validate() {
        Ok(()) => {},
        Err(errors) => {
            return Err(ApiError::ValidationError(errors));
        },
    }
    is_user_unique(state, payload.username.as_str())
}

/// Checks a request for a new account and stores the account, with the
/// outcome of hashing the password, the identifier and the moment given.
pub fn add_user_with(
    state: &mut AppState,
    payload: &CreateUserPayload,
    hashed: Result<String, ApiError>,
    id: Id,
    now: Timestamp,
) -> (created: Result<Id, ApiError>)
    requires
        old(state).db@.wf(),
    ensures
        final(state).db@.wf(),
        user_added(old(state).db@, final(state).db@, *payload, hashed, id, now, created),
{
    match check_new_user(state, payload) {
        Ok(()) => {},
        Err(error) => {
            return Err(error);
        },
    }
    match UserRepositoryImpl::create_with(state, payload, hashed, id, now) {
        Ok(user) => Ok(user.id),
        Err(error) => Err(error),
    }
}

/// Checks a request for a new account and stores the account: the password
/// is hashed, and the account is stored under a fresh identifier, now. The
/// only failures that a valid request for a free username can meet are those
/// of the hasher and of the store.
pub fn add_user(state: &mut AppState, payload: &CreateUserPayload) -> (created: Result<
    Id,
    ApiError,
>)
    requires
        old(state).db@.wf(),
    ensures
        final(state).db@.wf(),
        exists|hashed: Result<String, ApiError>, id: Id, now: Timestamp|
            hashed_as(payload.password@, hashed) && #[trigger] user_added(
                old(state).db@,
                final(state).db@,
                *payload,
                hashed,
                id,
                now,
                created,
            ),
        added_or_refused(old(state).db@, final(state).db@, *payload, created),
{
    match check_new_user(state, payload) {
        Ok(()) => {},
        Err(error) => {
            proof {
                let hashed = Err::<String, ApiError>(ApiError::EncryptionError(arbitrary()));
                assert(user_added(
                    state.db@,
                    state.db@,
                    *payload,
                    hashed,
                    arbitrary(),
                    arbitrary(),
                    Err(error),
                ));
            }
            return Err(error);
        },
    }
    let hashed = encrypt_password(payload.password.as_str());
    let id = Id::random();
    let now = Timestamp::now();
    let ghost outcome = hashed;
    let created = add_user_with(state, payload, hashed, id, now);
    proof {
        assert(user_added(old(state).db@, state.db@, *payload, outcome, id, now, created));
        lemma_added_or_refused(old(state).db@, state.db@, *payload, outcome, id, now, created);
    }
    created
}

/// What a request of a caller for a new account is answered with: the
/// caller must be active and privileged, and the rest is as for any request
/// for a new account.
pub open spec fn create_answered(
    tables: TablesData,
    after: TablesData,
    current_user: User,
    payload: CreateUserPayload,
    hashed: Result<String, ApiError>,
    id: Id,
    now: Timestamp,
    created: Result<Id, ApiError>,
) -> bool {
    if !may_manage(current_user) {
        (created matches Err(ApiError::Unauthorized)) && after == tables
    } else {
        user_added(tables, after, payload, hashed, id, now, created)
    }
}

/// `POST /users` with the outcome of hashing the password, the identifier
/// and the moment given: creates an account and answers with its identifier.
pub fn create_user_with(
    state: &mut AppState,
    current_user: &User,
    payload: CreateUserPayload,
    hashed: Result<String, ApiError>,
    id: Id,
    now: Timestamp,
) -> (created: Result<Id, ApiError>)
    requires
        old(state).db@.wf(),
    ensures
        final(state).db@.wf(),
        create_answered(
            old(state).db@,
            final(state).db@,
            *current_user,
            payload,
            hashed,
            id,
            now,
            created,
        ),
{
    match require_manager(current_user) {
        Ok(()) => {},
        Err(error) => {
            return Err(error);
        },
    }
    add_user_with(state, &payload, hashed, id, now)
}

/// `POST /users`: creates an account and answers with its identifier. A
/// caller who may not manage accounts is `Unauthorized`, and no other
/// request is; the rest is as for any request for a new account.
pub fn create_user(
    state: &mut AppState,
    current_user: &User,
    payload: CreateUserPayload,
) -> (created: Result<Id, ApiError>)
    requires
        old(state).db@.wf(),
    ensures
        final(state).db@.wf(),
        exists|hashed: Result<String, ApiError>, id: Id, now: Timestamp|
            hashed_as(payload.password@, hashed) && #[trigger] create_answered(
                old(state).db@,
                final(state).db@,
                *current_user,
                payload,
                hashed,
                id,
                now,
                created,
            ),
        if may_manage(*current_user) {
            added_or_refused(old(state).db@, final(state).db@, payload, created)
        } else {
            (created matches Err(ApiError::Unauthorized)) && final(state).db@ == old(state).db@
        },
{
    match require_manager(current_user) {
        Ok(()) => {},
        Err(error) => {
            proof {
                let hashed = Err::<String, ApiError>(ApiError::EncryptionError(arbitrary()));
                assert(create_answered(
                    state.db@,
                    state.db@,
                    *current_user,
                    payload,
                    hashed,
                    arbitrary(),
                    arbitrary(),
                    Err(error),
                ));
            }
            return Err(error);
        },
    }
    let created = add_user(state, &payload);
    proof {
        let (hashed, id, now) = choose|
            hashed: Result<String, ApiError>,
            id: Id,
            now: Timestamp,
        |
            hashed_as(payload.password@, hashed) && #[trigger] user_added(
                old(state).db@,
                state.db@,
                payload,
                hashed,
                id,
                now,
                created,
            );
        assert(create_answered(
            old(state).db@,
            state.db@,
            *current_user,
            payload,
            hashed,
            id,
            now,
            created,
        ));
    }
    created
}

/// What a request to change an account is answered with, as far as the
/// request and the accounts decide it: the checks are made in this order,
/// and the first that fails decides. Where a new password must be hashed,
/// the hasher has a say too.
pub open spec fn update_answered(
    users: Seq<UserData>,
    current_user: User,
    payload: UpdateUserPayload,
    updated: Result<Id, ApiError>,
) -> bool {
    if !may_manage(current_user) {
        updated matches Err(ApiError::Unauthorized)
    } else if payload.broken_rules().len() > 0 {
        updated matches Err(ApiError::ValidationError(errors)) && errors@
            == payload.broken_rules()
    } else if !has_user(users, payload.id) {
        updated matches Err(ApiError::NotFound)
    } else if payload.is_empty() {
        updated matches Err(ApiError::NotModified)
    } else if username_clash(users, payload) {
        updated matches Err(ApiError::DatabaseError(_))
    } else if payload.password is None {
        updated == Ok::<Id, ApiError>(payload.id)
    } else {
        updated == Ok::<Id, ApiError>(payload.id) || updated matches Err(
            ApiError::EncryptionError(_),
        )
    }
}

/// `PUT /users`: changes an account and answers with its identifier.
pub fn update_user(
    state: &mut AppState,
    current_user: &User,
    payload: UpdateUserPayload,
) -> (updated: Result<Id, ApiError>)
    requires
        old(state).db@.wf(),
    ensures
        final(state).db@.wf(),
        final(state).db@.tickets == old(state).db@.tickets,
        update_answered(old(state).db@.users, *current_user, payload, updated),
        updated matches Err(error) && !(error is EncryptionError) ==> final(state).db@ == old(
            state).db@,
        updated is Ok ==> exists|hash: Seq<char>, now: Timestamp| #[trigger]
            changed_with(old(state).db@.users, final(state).db@.users, payload, hash, now),
{
    match require_manager(current_user) {
        Ok(()) => {},
        Err(error) => {
            return Err(error);
        },
    }
    match payload.validate() {
        Ok(()) => {},
        Err(errors) => {
            return Err(ApiError::ValidationError(errors));
        },
    }
    match user_exists(state, payload.id) {
        Ok(()) => {},
        Err(error) => {
            return Err(error);
        },
    }
    let updated = UserRepositoryImpl::update(state, &payload);
    proof {
        let now = choose|now: Timestamp| #[trigger]
            carried_out(old(state).db@.users, state.db@.users, payload, None, now, updated);
        if updated is Ok && payload.password is None {
            assert(changed_with(
                old(state).db@.users,
                state.db@.users,
                payload,
                Seq::empty(),
                now,
            ));
        }
    }
    updated
}

/// `DELETE /users`: deletes an account. An account that is not there is
/// `NotFound`, and nothing is touched.
pub fn delete_user(state: &mut AppState, current_user: &User, payload: DeletePayload) -> (deleted:
    Result<(), ApiError>)
    requires
        old(state).db@.wf(),
    ensures
        final(state).db@.wf(),
        final(state).db@.tickets == old(state).db@.tickets,
        !may_manage(*current_user) ==> deleted matches Err(ApiError::Unauthorized),
        may_manage(*current_user) && !has_user(old(state).db@.users, payload.id)
            ==> deleted matches Err(ApiError::NotFound),
        may_manage(*current_user) && has_user(old(state).db@.users, payload.id)
            ==> deleted is Ok,
        deleted is Err ==> final(state).db@ == old(state).db@,
        deleted is Ok ==> final(state).db@.users == without_user(
            old(state).db@.users,
            payload.id,
        ) && !has_user(final(state).db@.users, payload.id),
{
    match require_manager(current_user) {
        Ok(()) => {},
        Err(error) => {
            return Err(error);
        },
    }
    match user_exists(state, payload.id) {
        Ok(()) => {},
        Err(error) => {
            return Err(error);
        },
    }
    UserRepositoryImpl::delete(state, &payload)
}

/// An account that was created is found under the identifier that the
/// request was answered with, and is shown as it was asked for.
pub proof fn lemma_created_user_is_shown(
    before: Seq<UserData>,
    user: UserData,
    payload: CreateUserPayload,
)
    requires
        distinct_user_ids(before),
        !has_user(before, user.id),
        as_requested(user, payload),
    ensures
        public_user(before.push(user), user.id) matches Some(shown) && {
            &&& shown.id == user.id
            &&& shown.username == payload.username@
            &&& shown.email == text_of(payload.email)
            &&& shown.first_name == text_of(payload.first_name)
            &&& shown.last_name == text_of(payload.last_name)
            &&& shown.role == payload.role.unwrap_or(Role::User)
            &&& shown.status == payload.status.unwrap_or(Status::Active)
        },
{
    lemma_stored_user_is_found(before, user);
}

} // verus!
