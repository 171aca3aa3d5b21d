//! Reading, creating, changing and deleting accounts.
//!
//! A change is carried out one statement at a time. [`UserUpdate`] decides
//! which statement comes next; whoever holds the store runs it and reports
//! back. [`UserRepositoryImpl`] does so on the tables held in memory.

use crate::database::{
    distinct_user_ids, has_user, has_username, lemma_user_at, public_user, public_users, row_count,
    user_view, user_views, user_with_id, AppState, TablesData,
};
use crate::database::repositories::ticket_repository::store_failure;
use crate::database::users::{takes_username, without_user, UserColumn, UserColumnData};
use crate::errors::api_error::ApiError;
use crate::models::{DeletePayload, Id, Timestamp};
use crate::models::user::{
    new_user, public_part, CreateUserPayload, Role, Status, UpdateUserPayload, User, UserData,
    UserPublic,
};
use crate::utils::hashing::{encrypt_password, hashed_as, password_matches};
use vstd::prelude::*;

verus! {

/// The steps of a change, in the order in which they are taken.
#[derive(Clone, Copy, Debug, PartialEq, Eq, Structural)]
pub enum UserStage {
    /// Asking whether the account is there.
    Exists,
    Username,
    Email,
    HashPassword,
    Password,
    FirstName,
    LastName,
    Role,
    Status,
    UpdatedAt,
    /// Everything is written.
    Finished,
    /// The change ended because the account is not there.
    Missing,
    /// The change ended because it names no field.
    Unchanged,
    /// The change ended because a step failed.
    Failed,
}

/// The place of a step in the order.
pub open spec fn stage_rank(stage: UserStage) -> nat {
    match stage {
        UserStage::Exists => 0,
        UserStage::Username => 1,
        UserStage::Email => 2,
        UserStage::HashPassword => 3,
        UserStage::Password => 4,
        UserStage::FirstName => 5,
        UserStage::LastName => 6,
        UserStage::Role => 7,
        UserStage::Status => 8,
        UserStage::UpdatedAt => 9,
        UserStage::Finished => 10,
        UserStage::Missing => 11,
        UserStage::Unchanged => 12,
        UserStage::Failed => 13,
    }
}

/// Whether a step comes before another in the order.
pub open spec fn precedes(step: UserStage, stage: UserStage) -> bool {
    stage_rank(step) < stage_rank(stage)
}

/// How far a change has come.
#[derive(Clone, Copy, Debug, PartialEq, Eq, Structural)]
pub struct UserUpdate {
    /// The next step to consider.
    pub stage: UserStage,
    /// Whether a field was written so far.
    pub updated: bool,
}

/// What came back from the last step.
#[derive(Clone, Debug, PartialEq, Eq)]
pub enum UserReply {
    /// Nothing was asked yet.
    Ready,
    /// The write was made.
    Written,
    /// The hash of the new password.
    Hashed(String),
    /// Whether an account has the identifier.
    Found(bool),
    /// The step failed: the store refused the statement, or the password
    /// could not be hashed.
    Failed,
}

/// What to do next.
#[derive(Clone, Debug, PartialEq, Eq)]
pub enum UserStep {
    /// Ask the store whether an account has the identifier.
    Probe,
    /// Write this column of the account.
    Write(UserColumn),
    /// Hash this password, and report the hash.
    HashPassword(String),
    /// The change is made: answer with the identifier.
    Done(Id),
    /// The change names no field: answer `NotModified`.
    NothingToDo,
    /// No account has the identifier: answer `NotFound`.
    NotFound,
    /// The last step failed: answer with its failure. What was written
    /// before stays written; nothing more is written, and nothing is tried
    /// again.
    Failed,
}

/// What a step holds.
pub enum UserStepData {
    Probe,
    Write(UserColumnData),
    HashPassword(Seq<char>),
    Done(Id),
    NothingToDo,
    NotFound,
    Failed,
}

impl View for UserStep {
    type V = UserStepData;

    open spec fn view(&self) -> UserStepData {
        match self {
            UserStep::Probe => UserStepData::Probe,
            UserStep::Write(column) => UserStepData::Write(column@),
            UserStep::HashPassword(password) => UserStepData::HashPassword(password@),
            UserStep::Done(id) => UserStepData::Done(*id),
            UserStep::NothingToDo => UserStepData::NothingToDo,
            UserStep::NotFound => UserStepData::NotFound,
            UserStep::Failed => UserStepData::Failed,
        }
    }
}

/// The hash that a reply reports, if it reports one.
pub open spec fn reported_hash(reply: UserReply) -> Option<Seq<char>> {
    match reply {
        UserReply::Hashed(hash) => Some(hash@),
        _ => None,
    }
}

/// The state after a step was taken.
pub open spec fn after(stage: UserStage, updated: bool) -> UserUpdate {
    UserUpdate { stage, updated }
}

/// The next step from a given one on: steps whose field is absent are passed
/// over. The hash is written only right after it was reported. A change that
/// has ended gives its answer again.
pub open spec fn next_from(
    stage: UserStage,
    updated: bool,
    hash: Option<Seq<char>>,
    payload: UpdateUserPayload,
    now: Timestamp,
) -> (UserUpdate, UserStepData)
    decreases 13 - stage_rank(stage),
{
    match stage {
        UserStage::Exists => (after(UserStage::Username, updated), UserStepData::Probe),
        UserStage::Username => match payload.username {
            Some(username) => (
                after(UserStage::Email, true),
                UserStepData::Write(UserColumnData::Username(username@)),
            ),
            None => next_from(UserStage::Email, updated, hash, payload, now),
        },
        UserStage::Email => match payload.email {
            Some(email) => (
                after(UserStage::HashPassword, true),
                UserStepData::Write(UserColumnData::Email(email@)),
            ),
            None => next_from(UserStage::HashPassword, updated, hash, payload, now),
        },
        UserStage::HashPassword => match payload.password {
            Some(password) => (
                after(UserStage::Password, updated),
                UserStepData::HashPassword(password@),
            ),
            None => next_from(UserStage::FirstName, updated, hash, payload, now),
        },
        UserStage::Password => match hash {
            Some(hash) => (
                after(UserStage::FirstName, true),
                UserStepData::Write(UserColumnData::PasswordHash(hash)),
            ),
            None => next_from(UserStage::FirstName, updated, hash, payload, now),
        },
        UserStage::FirstName => match payload.first_name {
            Some(first_name) => (
                after(UserStage::LastName, true),
                UserStepData::Write(UserColumnData::FirstName(first_name@)),
            ),
            None => next_from(UserStage::LastName, updated, hash, payload, now),
        },
        UserStage::LastName => match payload.last_name {
            Some(last_name) => (
                after(UserStage::Role, true),
                UserStepData::Write(UserColumnData::LastName(last_name@)),
            ),
            None => next_from(UserStage::Role, updated, hash, payload, now),
        },
        UserStage::Role => match payload.role {
            Some(role) => (
                after(UserStage::Status, true),
                UserStepData::Write(UserColumnData::Role(role)),
            ),
            None => next_from(UserStage::Status, updated, hash, payload, now),
        },
        UserStage::Status => match payload.status {
            Some(status) => (
                after(UserStage::UpdatedAt, true),
                UserStepData::Write(UserColumnData::Status(status)),
            ),
            None => next_from(UserStage::UpdatedAt, updated, hash, payload, now),
        },
        UserStage::UpdatedAt => if updated {
            (after(UserStage::Finished, updated), UserStepData::Write(UserColumnData::UpdatedAt(now)))
        } else {
            (after(UserStage::Unchanged, updated), UserStepData::NothingToDo)
        },
        UserStage::Finished => (after(UserStage::Finished, updated), UserStepData::Done(payload.id)),
        UserStage::Missing => (after(UserStage::Missing, updated), UserStepData::NotFound),
        UserStage::Unchanged => (after(UserStage::Unchanged, updated), UserStepData::NothingToDo),
        UserStage::Failed => (after(UserStage::Failed, updated), UserStepData::Failed),
    }
}

/// The next step of a change, given how far it has come and what came back
/// last. The change begins by asking whether the account is there, and ends
/// with `NotFound` if it is not. A step that failed ends the change at once.
pub open spec fn next_step(
    state: UserUpdate,
    reply: UserReply,
    payload: UpdateUserPayload,
    now: Timestamp,
) -> (UserUpdate, UserStepData) {
    match reply {
        UserReply::Failed => (after(UserStage::Failed, state.updated), UserStepData::Failed),
        UserReply::Found(false) => (after(UserStage::Missing, state.updated), UserStepData::NotFound),
        _ => next_from(state.stage, state.updated, reported_hash(reply), payload, now),
    }
}

impl UserUpdate {
    /// A change of which nothing is done yet.
    pub fn new() -> (state: UserUpdate)
        ensures
            state == after(UserStage::Exists, false),
    {
        UserUpdate { stage: UserStage::Exists, updated: false }
    }

    /// Decides the next step. `now` is the time to write where a time is
    /// written.
    pub fn step(self, reply: &UserReply, payload: &UpdateUserPayload, now: Timestamp) -> (next: (
        UserUpdate,
        UserStep,
    ))
        ensures
            next.0 == next_step(self, *reply, *payload, now).0,
            next.1@ == next_step(self, *reply, *payload, now).1,
    {
        reveal_with_fuel(next_from, 11);
        let updated = self.updated;
        match reply {
            UserReply::Failed => {
                return (UserUpdate { stage: UserStage::Failed, updated }, UserStep::Failed);
            },
            UserReply::Found(false) => {
                return (UserUpdate { stage: UserStage::Missing, updated }, UserStep::NotFound);
            },
            _ => {},
        }
        let mut stage = self.stage;
        if stage == UserStage::Exists {
            return (UserUpdate { stage: UserStage::Username, updated }, UserStep::Probe);
        }
        if stage == UserStage::Username {
            if let Some(username) = &payload.username {
                return (
                    UserUpdate { stage: UserStage::Email, updated: true },
                    UserStep::Write(UserColumn::Username(username.clone())),
                );
            }
            stage = UserStage::Email;
        }
        if stage == UserStage::Email {
            if let Some(email) = &payload.email {
                return (
                    UserUpdate { stage: UserStage::HashPassword, updated: true },
                    UserStep::Write(UserColumn::Email(email.clone())),
                );
            }
            stage = UserStage::HashPassword;
        }
        if stage == UserStage::HashPassword {
            if let Some(password) = &payload.password {
                return (
                    UserUpdate { stage: UserStage::Password, updated },
                    UserStep::HashPassword(password.clone()),
                );
            }
            stage = UserStage::FirstName;
        }
        if stage == UserStage::Password {
            if let UserReply::Hashed(hash) = reply {
                return (
                    UserUpdate { stage: UserStage::FirstName, updated: true },
                    UserStep::Write(UserColumn::PasswordHash(hash.clone())),
                );
            }
            stage = UserStage::FirstName;
        }
        if stage == UserStage::FirstName {
            if let Some(first_name) = &payload.first_name {
                return (
                    UserUpdate { stage: UserStage::LastName, updated: true },
                    UserStep::Write(UserColumn::FirstName(first_name.clone())),
                );
            }
            stage = UserStage::LastName;
        }
        if stage == UserStage::LastName {
            if let Some(last_name) = &payload.last_name {
                return (
                    UserUpdate { stage: UserStage::Role, updated: true },
                    UserStep::Write(UserColumn::LastName(last_name.clone())),
                );
            }
            stage = UserStage::Role;
        }
        if stage == UserStage::Role {
            if let Some(role) = payload.role {
                return (
                    UserUpdate { stage: UserStage::Status, updated: true },
                    UserStep::Write(UserColumn::Role(role)),
                );
            }
            stage = UserStage::Status;
        }
        if stage == UserStage::Status {
            if let Some(status) = payload.status {
                return (
                    UserUpdate { stage: UserStage::UpdatedAt, updated: true },
                    UserStep::Write(UserColumn::Status(status)),
                );
            }
            stage = UserStage::UpdatedAt;
        }
        if stage == UserStage::UpdatedAt {
            if updated {
                return (
                    UserUpdate { stage: UserStage::Finished, updated },
                    UserStep::Write(UserColumn::UpdatedAt(now)),
                );
            }
            return (UserUpdate { stage: UserStage::Unchanged, updated }, UserStep::NothingToDo);
        }
        match stage {
            UserStage::Missing => (UserUpdate { stage: UserStage::Missing, updated }, UserStep::NotFound),
            UserStage::Unchanged => (
                UserUpdate { stage: UserStage::Unchanged, updated },
                UserStep::NothingToDo,
            ),
            UserStage::Failed => (UserUpdate { stage: UserStage::Failed, updated }, UserStep::Failed),
            _ => (UserUpdate { stage: UserStage::Finished, updated }, UserStep::Done(payload.id)),
        }
    }
}

/// An account after a change was made at time `now`, with `hash` as the hash
/// of the new password: each field that the change names is overwritten, the
/// others are kept.
pub open spec fn changed_user(
    user: UserData,
    payload: UpdateUserPayload,
    hash: Seq<char>,
    now: Timestamp,
) -> UserData {
    UserData {
        id: user.id,
        username: match payload.username {
            Some(username) => username@,
            None => user.username,
        },
        email: match payload.email {
            Some(email) => Some(email@),
            None => user.email,
        },
        password_hash: match payload.password {
            Some(_) => hash,
            None => user.password_hash,
        },
        first_name: match payload.first_name {
            Some(first_name) => Some(first_name@),
            None => user.first_name,
        },
        last_name: match payload.last_name {
            Some(last_name) => Some(last_name@),
            None => user.last_name,
        },
        role: match payload.role {
            Some(role) => role,
            None => user.role,
        },
        status: match payload.status {
            Some(status) => status,
            None => user.status,
        },
        created_at: user.created_at,
        updated_at: now,
    }
}

/// An account when the steps before `stage` are taken.
pub open spec fn partly_changed(
    stage: UserStage,
    user: UserData,
    payload: UpdateUserPayload,
    hash: Seq<char>,
    now: Timestamp,
) -> UserData {
    let whole = changed_user(user, payload, hash, now);
    UserData {
        id: user.id,
        username: if precedes(UserStage::Username, stage) {
            whole.username
        } else {
            user.username
        },
        email: if precedes(UserStage::Email, stage) {
            whole.email
        } else {
            user.email
        },
        password_hash: if precedes(UserStage::Password, stage) {
            whole.password_hash
        } else {
            user.password_hash
        },
        first_name: if precedes(UserStage::FirstName, stage) {
            whole.first_name
        } else {
            user.first_name
        },
        last_name: if precedes(UserStage::LastName, stage) {
            whole.last_name
        } else {
            user.last_name
        },
        role: if precedes(UserStage::Role, stage) {
            whole.role
        } else {
            user.role
        },
        status: if precedes(UserStage::Status, stage) {
            whole.status
        } else {
            user.status
        },
        created_at: user.created_at,
        updated_at: if precedes(UserStage::UpdatedAt, stage) && !payload.is_empty() {
            now
        } else {
            user.updated_at
        },
    }
}

/// The accounts when the steps before `stage` are taken: the account that
/// the change names is changed so far, the others are kept.
pub open spec fn partly_changed_users(
    stage: UserStage,
    users: Seq<UserData>,
    payload: UpdateUserPayload,
    hash: Seq<char>,
    now: Timestamp,
) -> Seq<UserData> {
    Seq::new(
        users.len(),
        |i: int|
            if users[i].id == payload.id {
                partly_changed(stage, users[i], payload, hash, now)
            } else {
                users[i]
            },
    )
}

/// The accounts after a change.
pub open spec fn changed_users(
    users: Seq<UserData>,
    payload: UpdateUserPayload,
    hash: Seq<char>,
    now: Timestamp,
) -> Seq<UserData> {
    partly_changed_users(UserStage::Finished, users, payload, hash, now)
}

/// Whether one of the steps before `stage` writes a field.
pub open spec fn written_before(stage: UserStage, payload: UpdateUserPayload) -> bool {
    ||| precedes(UserStage::Username, stage) && payload.username is Some
    ||| precedes(UserStage::Email, stage) && payload.email is Some
    ||| precedes(UserStage::Password, stage) && payload.password is Some
    ||| precedes(UserStage::FirstName, stage) && payload.first_name is Some
    ||| precedes(UserStage::LastName, stage) && payload.last_name is Some
    ||| precedes(UserStage::Role, stage) && payload.role is Some
    ||| precedes(UserStage::Status, stage) && payload.status is Some
}

/// Whether the store rejects the new username of a change: another account
/// has it.
pub open spec fn username_clash(users: Seq<UserData>, payload: UpdateUserPayload) -> bool {
    payload.username matches Some(username) && takes_username(
        users,
        payload.id,
        UserColumnData::Username(username@),
    )
}

/// Whether the accounts are as a change leaves them, made at time `now` with
/// `hash` as the hash of the new password: the account that the change names
/// is changed, the others are kept, and the new password, if there is one,
/// matches the hash.
pub open spec fn changed_with(
    before: Seq<UserData>,
    after: Seq<UserData>,
    payload: UpdateUserPayload,
    hash: Seq<char>,
    now: Timestamp,
) -> bool {
    &&& after == changed_users(before, payload, hash, now)
    &&& payload.password matches Some(password) ==> password_matches(
        password@,
        hash,
    )
}

/// Whether a change was carried out as it should be at time `now`, where
/// `hashed` is the outcome of hashing the new password, if it is known
/// beforehand. The checks are made in this order, and the first that fails
/// decides: an account that is not there is `NotFound`, and nothing is
/// written; a change that names no field is refused and writes nothing; a
/// username that another account has is rejected by the store before
/// anything is written; where hashing fails, the change stops there, with
/// username and e-mail address written and the rest not; otherwise the
/// change is made and answered with the identifier.
pub open spec fn carried_out(
    before: Seq<UserData>,
    after: Seq<UserData>,
    payload: UpdateUserPayload,
    hashed: Option<Result<String, ApiError>>,
    now: Timestamp,
    outcome: Result<Id, ApiError>,
) -> bool {
    let stopped = partly_changed_users(UserStage::HashPassword, before, payload, Seq::empty(), now);
    if !has_user(before, payload.id) {
        (outcome matches Err(ApiError::NotFound)) && after == before
    } else if payload.is_empty() {
        (outcome matches Err(ApiError::NotModified)) && after == before
    } else if username_clash(before, payload) {
        (outcome matches Err(ApiError::DatabaseError(_))) && after == before
    } else if payload.password is None {
        outcome == Ok::<Id, ApiError>(payload.id) && after == changed_users(
            before,
            payload,
            Seq::empty(),
            now,
        )
    } else {
        match hashed {
            Some(Ok(hash)) => outcome == Ok::<Id, ApiError>(payload.id) && after == changed_users(
                before,
                payload,
                hash@,
                now,
            ),
            Some(Err(error)) => outcome == Err::<Id, ApiError>(error) && after == stopped,
            None => match outcome {
                Ok(id) => id == payload.id && exists|hash: Seq<char>| #[trigger]
                    changed_with(before, after, payload, hash, now),
                Err(error) => error is EncryptionError && after == stopped,
            },
        }
    }
}

/// Whether an account was stored as it should be, where `hashed` is the
/// outcome of hashing its password, `id` the identifier that was drawn for
/// it and `now` the moment. If hashing failed, that is the answer. The store
/// fails if the identifier or the username is taken. Nothing is stored then.
/// Otherwise the account is stored and returned.
pub open spec fn stored_as(
    tables: TablesData,
    after: TablesData,
    payload: CreateUserPayload,
    hashed: Result<String, ApiError>,
    id: Id,
    now: Timestamp,
    created: Result<User, ApiError>,
) -> bool {
    match hashed {
        Err(error) => created == Err::<User, ApiError>(error) && after == tables,
        Ok(hash) => if has_user(tables.users, id) || has_username(
            tables.users,
            payload.username@,
        ) {
            (created matches Err(ApiError::DatabaseError(_))) && after == tables
        } else {
            &&& created matches Ok(user) && user@ == new_user(id, payload, hash@, now)
            &&& after.tickets == tables.tickets
            &&& after.users == tables.users.push(new_user(id, payload, hash@, now))
        },
    }
}

/// The step at which a column is written.
pub open spec fn stage_of(column: UserColumnData) -> UserStage {
    match column {
        UserColumnData::Username(_) => UserStage::Username,
        UserColumnData::Email(_) => UserStage::Email,
        UserColumnData::PasswordHash(_) => UserStage::Password,
        UserColumnData::FirstName(_) => UserStage::FirstName,
        UserColumnData::LastName(_) => UserStage::LastName,
        UserColumnData::Role(_) => UserStage::Role,
        UserColumnData::Status(_) => UserStage::Status,
        UserColumnData::UpdatedAt(_) => UserStage::UpdatedAt,
    }
}

/// The step at which a column is written.
pub fn column_stage(column: &UserColumn) -> (stage: UserStage)
    ensures
        stage == stage_of(column@),
{
    match column {
        UserColumn::Username(_) => UserStage::Username,
        UserColumn::Email(_) => UserStage::Email,
        UserColumn::PasswordHash(_) => UserStage::Password,
        UserColumn::FirstName(_) => UserStage::FirstName,
        UserColumn::LastName(_) => UserStage::LastName,
        UserColumn::Role(_) => UserStage::Role,
        UserColumn::Status(_) => UserStage::Status,
        UserColumn::UpdatedAt(_) => UserStage::UpdatedAt,
    }
}

/// Whether the change names a password of which it is known beforehand that
/// it cannot be hashed.
pub open spec fn hashing_fails(
    payload: UpdateUserPayload,
    hashed: Option<Result<String, ApiError>>,
) -> bool {
    payload.password is Some && hashed matches Some(Err(_))
}

/// Whether a change of an account runs a statement at a step, as far as that
/// is known beforehand: the probe always; everything else only if the
/// account is there; the write of the username if the change names one;
/// every later write only if the store takes the username, the change names
/// the field, and the hasher is not known to fail before it.
pub open spec fn runs(
    stage: UserStage,
    users: Seq<UserData>,
    payload: UpdateUserPayload,
    hashed: Option<Result<String, ApiError>>,
) -> bool {
    let open = has_user(users, payload.id) && !username_clash(users, payload);
    match stage {
        UserStage::Exists => true,
        UserStage::Username => has_user(users, payload.id) && payload.username is Some,
        UserStage::Email => open && payload.email is Some,
        UserStage::Password => open && payload.password is Some && !hashing_fails(payload, hashed),
        UserStage::FirstName => open && payload.first_name is Some && !hashing_fails(
            payload,
            hashed,
        ),
        UserStage::LastName => open && payload.last_name is Some && !hashing_fails(payload, hashed),
        UserStage::Role => open && payload.role is Some && !hashing_fails(payload, hashed),
        UserStage::Status => open && payload.status is Some && !hashing_fails(payload, hashed),
        UserStage::UpdatedAt => open && !payload.is_empty() && !hashing_fails(payload, hashed),
        _ => false,
    }
}

/// Whether it is open at a step how the hasher fares: the change names a
/// password, the outcome of hashing it is not given, and the step comes
/// after the hashing.
pub open spec fn hashing_is_open(
    stage: UserStage,
    payload: UpdateUserPayload,
    hashed: Option<Result<String, ApiError>>,
) -> bool {
    payload.password is Some && hashed is None && precedes(UserStage::HashPassword, stage)
}

/// Whether the accounts are as a change leaves them that the store stopped
/// at a step, with `hash` as the hash of the new password.
pub open spec fn stopped_with(
    before: Seq<UserData>,
    after: Seq<UserData>,
    payload: UpdateUserPayload,
    stage: UserStage,
    hash: Seq<char>,
    now: Timestamp,
) -> bool {
    &&& after == partly_changed_users(stage, before, payload, hash, now)
    &&& payload.password matches Some(password) ==> password_matches(password@, hash)
}

/// Whether a change was carried out as it should be at time `now` by a store
/// that fails at the statement of the step `failing`, if that is given and
/// the change comes to it. The failure ends the change with
/// `DatabaseError`: what was written before that step stays written, the
/// rest is not written, and the time of the change is not stamped. Where the
/// password is hashed on the way, the hasher may fail first. A store that
/// does not fail carries the change out as [`carried_out`] says.
pub open spec fn carried_out_until(
    before: Seq<UserData>,
    after: Seq<UserData>,
    payload: UpdateUserPayload,
    hashed: Option<Result<String, ApiError>>,
    now: Timestamp,
    failing: Option<UserStage>,
    outcome: Result<Id, ApiError>,
) -> bool {
    if failing is Some && runs(failing.unwrap(), before, payload, hashed) {
        if hashing_is_open(failing.unwrap(), payload, hashed) {
            outcome matches Err(error) && {
                ||| error is EncryptionError && after == partly_changed_users(
                    UserStage::HashPassword,
                    before,
                    payload,
                    Seq::empty(),
                    now,
                )
                ||| error is DatabaseError && exists|hash: Seq<char>| #[trigger]
                    stopped_with(before, after, payload, failing.unwrap(), hash, now)
            }
        } else {
            (outcome matches Err(ApiError::DatabaseError(_))) && after == partly_changed_users(
                failing.unwrap(),
                before,
                payload,
                hash_of(hashed),
                now,
            )
        }
    } else {
        carried_out(before, after, payload, hashed, now, outcome)
    }
}

/// Whether the store fails at this step.
fn fails_at(failing: Option<UserStage>, stage: UserStage) -> (fails: bool)
    ensures
        fails == (failing == Some(stage)),
{
    match failing {
        Some(failing) => failing == stage,
        None => false,
    }
}

/// The hash in the outcome of hashing, or the empty text.
pub open spec fn hash_of(hashed: Option<Result<String, ApiError>>) -> Seq<char> {
    match hashed {
        Some(Ok(hash)) => hash@,
        _ => Seq::empty(),
    }
}

/// The repository of accounts, on the tables held in memory.
pub struct UserRepositoryImpl;

impl UserRepositoryImpl {
    /// How many accounts there are.
    pub fn count(state: &AppState) -> (count: Result<i64, ApiError>)
        ensures
            count matches Ok(rows) && rows == row_count(state.db@.users.len()),
    {
        Ok(state.db.count_users())
    }

    /// All accounts, in the order of the table.
    pub fn find_all(state: &AppState) -> (users: Result<Vec<UserPublic>, ApiError>)
        ensures
            users matches Ok(rows) && user_views(rows@) == public_users(state.db@.users),
    {
        Ok(state.db.select_users())
    }

    /// The account with this identifier; `Ok(None)` if there is none.
    pub fn find_by_id(state: &AppState, id: Id) -> (user: Result<Option<UserPublic>, ApiError>)
        requires
            state.db@.wf(),
        ensures
            user matches Ok(row) && user_view(row) == public_user(state.db@.users, id),
    {
        Ok(state.db.select_user(id))
    }

    /// Stores an account whose password hash is given. The store fails if
    /// the identifier or the username is taken; nothing is stored then.
    pub fn insert(state: &mut AppState, user: User) -> (outcome: Result<(), ApiError>)
        requires
            old(state).db@.wf(),
        ensures
            final(state).db@.wf(),
            final(state).db@.tickets == old(state).db@.tickets,
            outcome is Ok <==> !has_user(old(state).db@.users, user.id) && !has_username(
                old(state).db@.users,
                user@.username,
            ),
            outcome is Ok ==> final(state).db@.users == old(state).db@.users.push(user@),
            outcome matches Err(error) ==> error is DatabaseError && final(state).db@ == old(
                state).db@,
    {
        match state.db.insert_user(user) {
            Ok(()) => Ok(()),
            Err(cause) => Err(ApiError::DatabaseError(cause)),
        }
    }

    /// Creates an account: hashes the password, draws a random identifier,
    /// and stores the row, now. An absent role stands for `User`, an absent
    /// status for `Active`.
    pub fn create(state: &mut AppState, payload: &CreateUserPayload) -> (created: Result<
        User,
        ApiError,
    >)
        requires
            old(state).db@.wf(),
        ensures
            final(state).db@.wf(),
            exists|hashed: Result<String, ApiError>, id: Id, now: Timestamp|
                hashed_as(payload.password@, hashed) && #[trigger] stored_as(
                    old(state).db@,
                    final(state).db@,
                    *payload,
                    hashed,
                    id,
                    now,
                    created,
                ),
    {
        let hashed = encrypt_password(payload.password.as_str());
        let id = Id::random();
        let now = Timestamp::now();
        let ghost outcome = hashed;
        let created = Self::create_with(state, payload, hashed, id, now);
        assert(stored_as(old(state).db@, state.db@, *payload, outcome, id, now, created));
        created
    }

    /// Creates an account with the outcome of hashing its password, its
    /// identifier and the moment given.
    pub fn create_with(
        state: &mut AppState,
        payload: &CreateUserPayload,
        hashed: Result<String, ApiError>,
        id: Id,
        now: Timestamp,
    ) -> (created: Result<User, ApiError>)
        requires
            old(state).db@.wf(),
        ensures
            final(state).db@.wf(),
            stored_as(old(state).db@, final(state).db@, *payload, hashed, id, now, created),
    {
        let hash = match hashed {
            Ok(hash) => hash,
            Err(error) => {
                return Err(error);
            },
        };
        let user = User::new_at(payload, hash.as_str(), id, now);
        let stored = user.duplicate();
        match Self::insert(state, stored) {
            Ok(()) => Ok(user),
            Err(error) => Err(error),
        }
    }

    /// Changes an account, hashing the new password if there is one and
    /// writing the current time where a time is written.
    pub fn update(state: &mut AppState, payload: &UpdateUserPayload) -> (outcome: Result<
        Id,
        ApiError,
    >)
        requires
            old(state).db@.wf(),
        ensures
            final(state).db@.wf(),
            final(state).db@.tickets == old(state).db@.tickets,
            exists|now: Timestamp| #[trigger]
                carried_out(
                    old(state).db@.users,
                    final(state).db@.users,
                    *payload,
                    None,
                    now,
                    outcome,
                ),
    {
        let now = Timestamp::now();
        let outcome = Self::update_with(state, payload, None, now);
        assert(carried_out(old(state).db@.users, state.db@.users, *payload, None, now, outcome));
        outcome
    }

    /// Changes an account at a given time: runs the steps that
    /// [`UserUpdate`] decides on, one by one, until it is done or one fails.
    /// If the outcome of hashing the new password is given, it is taken as
    /// it is when the turn of the password comes; if not, the password is
    /// hashed then.
    pub fn update_with(
        state: &mut AppState,
        payload: &UpdateUserPayload,
        hashed: Option<Result<String, ApiError>>,
        now: Timestamp,
    ) -> (outcome: Result<Id, ApiError>)
        requires
            old(state).db@.wf(),
        ensures
            final(state).db@.wf(),
            final(state).db@.tickets == old(state).db@.tickets,
            carried_out(
                old(state).db@.users,
                final(state).db@.users,
                *payload,
                hashed,
                now,
                outcome,
            ),
    {
        Self::update_until(state, payload, hashed, now, None)
    }

    /// Changes an account at a given time as
    /// [`UserRepositoryImpl::update_with`] does, on a store that fails at the
    /// statement of the step `failing`, if one is given: the tables held in
    /// memory fail for a taken username only, and this shows what any other
    /// failure leaves behind.
    #[verifier::rlimit(80)]
    pub fn update_until(
        state: &mut AppState,
        payload: &UpdateUserPayload,
        hashed: Option<Result<String, ApiError>>,
        now: Timestamp,
        failing: Option<UserStage>,
    ) -> (outcome: Result<Id, ApiError>)
        requires
            old(state).db@.wf(),
        ensures
            final(state).db@.wf(),
            final(state).db@.tickets == old(state).db@.tickets,
            carried_out_until(
                old(state).db@.users,
                final(state).db@.users,
                *payload,
                hashed,
                now,
                failing,
                outcome,
            ),
    {
        let ghost start = state.db@;
        let ghost mut hash = hash_of(hashed);
        let mut pending = hashed;
        let mut machine = UserUpdate::new();
        let mut reply = UserReply::Ready;
        assert(state.db@.users =~= partly_changed_users(
            machine.stage,
            start.users,
            *payload,
            hash,
            now,
        ));
        loop
            invariant
                start == old(state).db@,
                start.wf(),
                state.db@.wf(),
                state.db@.tickets == start.tickets,
                state.db@.users == partly_changed_users(
                    machine.stage,
                    start.users,
                    *payload,
                    hash,
                    now,
                ),
                stage_rank(machine.stage) <= stage_rank(UserStage::Finished),
                !(reply is Failed),
                reply matches UserReply::Found(found) ==> found == has_user(start.users, payload.id),
                !(machine.stage is Exists) && !(reply is Found) ==> has_user(
                    start.users,
                    payload.id,
                ),
                machine.stage is Exists ==> reply is Ready,
                machine.updated == written_before(machine.stage, *payload),
                machine.stage == UserStage::Finished ==> machine.updated,
                precedes(UserStage::Username, machine.stage) ==> !username_clash(
                    start.users,
                    *payload,
                ),
                !precedes(UserStage::HashPassword, machine.stage) ==> pending == hashed,
                hashed matches Some(Ok(given)) ==> hash == given@,
                !precedes(UserStage::HashPassword, machine.stage) && !(hashed matches Some(Ok(_)))
                    ==> hash == Seq::<char>::empty(),
                machine.stage == UserStage::Password ==> payload.password is Some
                    && reported_hash(reply) == Some(hash),
                precedes(UserStage::HashPassword, machine.stage) && payload.password is Some ==> !(
                hashed matches Some(Err(_))),
                precedes(UserStage::HashPassword, machine.stage) && hashed is None ==> (
                payload.password matches Some(password) ==> password_matches(password@, hash)),
                (failing is Some && precedes(failing.unwrap(), machine.stage)) ==> !runs(
                    failing.unwrap(),
                    start.users,
                    *payload,
                    hashed,
                ),
            decreases 14 - stage_rank(machine.stage),
        {
            reveal_with_fuel(next_from, 11);
            let (next, action) = machine.step(&reply, payload, now);
            match action {
                UserStep::Probe => {
                    if fails_at(failing, UserStage::Exists) {
                        proof {
                            assert(state.db@.users =~= partly_changed_users(
                                UserStage::Exists,
                                start.users,
                                *payload,
                                hash_of(hashed),
                                now,
                            ));
                        }
                        return Self::stop(
                            machine,
                            payload,
                            now,
                            store_failure("the statement failed".to_string()),
                        );
                    }
                    reply = UserReply::Found(state.db.user_exists(payload.id));
                    proof {
                        assert(state.db@.users =~= start.users);
                        assert(state.db@.users =~= partly_changed_users(
                            next.stage,
                            start.users,
                            *payload,
                            hash,
                            now,
                        ));
                    }
                },
                UserStep::Write(column) => {
                    let stage = column_stage(&column);
                    proof {
                        if machine.stage == UserStage::Username {
                            assert(state.db@.users =~= start.users);
                        }
                        assert(state.db@.users =~= partly_changed_users(
                            stage,
                            start.users,
                            *payload,
                            hash,
                            now,
                        ));
                    }
                    if fails_at(failing, stage) {
                        proof {
                            assert(runs(stage, start.users, *payload, hashed));
                            if hashing_is_open(stage, *payload, hashed) {
                                assert(stopped_with(
                                    start.users,
                                    state.db@.users,
                                    *payload,
                                    stage,
                                    hash,
                                    now,
                                ));
                            } else {
                                assert(state.db@.users =~= partly_changed_users(
                                    stage,
                                    start.users,
                                    *payload,
                                    hash_of(hashed),
                                    now,
                                ));
                            }
                        }
                        return Self::stop(
                            machine,
                            payload,
                            now,
                            store_failure("the statement failed".to_string()),
                        );
                    }
                    match state.db.update_user(payload.id, &column) {
                        Ok(()) => {},
                        Err(cause) => {
                            proof {
                                assert(username_clash(start.users, *payload));
                                assert(state.db@.users =~= start.users);
                                if failing is Some {
                                    assert(!runs(failing.unwrap(), start.users, *payload, hashed));
                                }
                            }
                            return Self::stop(machine, payload, now, store_failure(cause));
                        },
                    }
                    reply = UserReply::Written;
                    proof {
                        assert(state.db@.users =~= partly_changed_users(
                            next.stage,
                            start.users,
                            *payload,
                            hash,
                            now,
                        ));
                    }
                },
                UserStep::HashPassword(password) => {
                    let outcome = match pending.take() {
                        Some(outcome) => outcome,
                        None => encrypt_password(password.as_str()),
                    };
                    match outcome {
                        Ok(value) => {
                            proof {
                                hash = value@;
                            }
                            reply = UserReply::Hashed(value);
                        },
                        Err(error) => {
                            proof {
                                assert(state.db@.users =~= partly_changed_users(
                                    UserStage::HashPassword,
                                    start.users,
                                    *payload,
                                    Seq::empty(),
                                    now,
                                ));
                                if failing is Some && runs(
                                    failing.unwrap(),
                                    start.users,
                                    *payload,
                                    hashed,
                                ) {
                                    assert(hashing_is_open(failing.unwrap(), *payload, hashed));
                                }
                            }
                            return Self::stop(machine, payload, now, error);
                        },
                    }
                    proof {
                        assert(state.db@.users =~= partly_changed_users(
                            next.stage,
                            start.users,
                            *payload,
                            hash,
                            now,
                        ));
                    }
                },
                UserStep::Done(id) => {
                    proof {
                        if payload.password is None {
                            assert(state.db@.users =~= changed_users(
                                start.users,
                                *payload,
                                Seq::empty(),
                                now,
                            ));
                        } else if hashed is None {
                            assert(changed_with(start.users, state.db@.users, *payload, hash, now));
                        }
                        if failing is Some {
                            assert(!runs(failing.unwrap(), start.users, *payload, hashed));
                        }
                    }
                    return Ok(id);
                },
                UserStep::NothingToDo => {
                    proof {
                        assert(state.db@.users =~= start.users);
                        if failing is Some {
                            assert(!runs(failing.unwrap(), start.users, *payload, hashed));
                        }
                    }
                    return Err(ApiError::NotModified);
                },
                UserStep::NotFound => {
                    proof {
                        assert(state.db@.users =~= start.users);
                        if failing is Some {
                            assert(!runs(failing.unwrap(), start.users, *payload, hashed));
                        }
                    }
                    return Err(ApiError::NotFound);
                },
                UserStep::Failed => {
                    return Err(store_failure("the statement failed".to_string()));
                },
            }
            machine = next;
        }
    }

    /// Ends a change at a step that failed: the machine is told, and says
    /// that the change is over; the failure is the answer.
    fn stop(machine: UserUpdate, payload: &UpdateUserPayload, now: Timestamp, failure: ApiError) -> (outcome:
        Result<Id, ApiError>)
        ensures
            outcome == Err::<Id, ApiError>(failure),
    {
        let (ended, step) = machine.step(&UserReply::Failed, payload, now);
        assert(ended.stage is Failed && step@ is Failed);
        Err(failure)
    }

    /// Deletes the account with this identifier. Deleting what is not there
    /// succeeds and changes nothing.
    pub fn delete(state: &mut AppState, payload: &DeletePayload) -> (outcome: Result<(), ApiError>)
        requires
            old(state).db@.wf(),
        ensures
            outcome is Ok,
            final(state).db@.wf(),
            final(state).db@.tickets == old(state).db@.tickets,
            final(state).db@.users == without_user(old(state).db@.users, payload.id),
            !has_user(final(state).db@.users, payload.id),
    {
        state.db.delete_user(payload.id);
        Ok(())
    }
}

/// An account that was stored is found under its identifier, and is shown
/// with the fields it was stored with, but for the password hash.
pub proof fn lemma_stored_user_is_found(users: Seq<UserData>, user: UserData)
    requires
        distinct_user_ids(users),
        !has_user(users, user.id),
    ensures
        distinct_user_ids(users.push(user)),
        user_with_id(users.push(user), user.id) == Some(user),
        public_user(users.push(user), user.id) == Some(public_part(user)),
{
    let stored = users.push(user);
    let last = users.len() as int;
    assert(stored[last] == user);
    assert forall|i: int, j: int|
        0 <= i < stored.len() && 0 <= j < stored.len() && i != j implies (#[trigger] stored[i]).id
        != (#[trigger] stored[j]).id by {
        if i < last && j < last {
            assert(stored[i] == users[i]);
            assert(stored[j] == users[j]);
        } else if i < last {
            assert(stored[i] == users[i]);
        } else {
            assert(stored[j] == users[j]);
        }
    }
    lemma_user_at(stored, last);
}

/// Once an account is stored, its username is taken: whatever is stored
/// after it, a second account under that username is refused.
pub proof fn lemma_username_is_taken(users: Seq<UserData>, user: UserData)
    ensures
        has_username(users.push(user), user.username),
{
    let stored = users.push(user);
    assert(stored[users.len() as int].username == user.username);
}

/// A change that names no field writes nothing and hashes nothing: once the
/// account is found, it is refused at the next step.
pub proof fn lemma_empty_change_writes_nothing(payload: UpdateUserPayload, now: Timestamp)
    requires
        payload.is_empty(),
    ensures
        next_step(after(UserStage::Exists, false), UserReply::Ready, payload, now) == (
            after(UserStage::Username, false),
            UserStepData::Probe,
        ),
        next_step(after(UserStage::Username, false), UserReply::Found(true), payload, now).1
            == UserStepData::NothingToDo,
{
    reveal_with_fuel(next_from, 11);
}

/// An account that is not there ends the change before anything is written.
pub proof fn lemma_missing_account_ends_the_change(
    state: UserUpdate,
    payload: UpdateUserPayload,
    now: Timestamp,
)
    ensures
        next_step(state, UserReply::Found(false), payload, now).1 == UserStepData::NotFound,
        next_step(state, UserReply::Found(false), payload, now).0.stage == UserStage::Missing,
{
}

/// A step that failed ends the change: the next step is to answer with the
/// failure, whatever is left to write, and after that no step writes.
pub proof fn lemma_failure_ends_the_change(
    state: UserUpdate,
    reply: UserReply,
    payload: UpdateUserPayload,
    now: Timestamp,
)
    ensures
        next_step(state, UserReply::Failed, payload, now).1 == UserStepData::Failed,
        next_step(state, UserReply::Failed, payload, now).0.stage == UserStage::Failed,
        state.stage == UserStage::Failed ==> !(next_step(state, reply, payload, now).1 is Write),
{
    reveal_with_fuel(next_from, 2);
}

impl User {
    /// How many accounts there are.
    pub fn count(state: &AppState) -> (count: Result<i64, ApiError>)
        ensures
            count matches Ok(rows) && rows == row_count(state.db@.users.len()),
    {
        UserRepositoryImpl::count(state)
    }

    /// All accounts, in the order of the table.
    pub fn find_all(state: &AppState) -> (users: Result<Vec<UserPublic>, ApiError>)
        ensures
            users matches Ok(rows) && user_views(rows@) == public_users(state.db@.users),
    {
        UserRepositoryImpl::find_all(state)
    }

    /// The account with this identifier; `Ok(None)` if there is none.
    pub fn find_by_id(state: &AppState, id: Id) -> (user: Result<Option<UserPublic>, ApiError>)
        requires
            state.db@.wf(),
        ensures
            user matches Ok(row) && user_view(row) == public_user(state.db@.users, id),
    {
        UserRepositoryImpl::find_by_id(state, id)
    }

    /// Creates an account: hashes the password, draws a random identifier,
    /// and stores the row, now. An absent role stands for `User`, an absent
    /// status for `Active`.
    pub fn create(state: &mut AppState, payload: &CreateUserPayload) -> (created: Result<
        User,
        ApiError,
    >)
        requires
            old(state).db@.wf(),
        ensures
            final(state).db@.wf(),
            exists|hashed: Result<String, ApiError>, id: Id, now: Timestamp|
                hashed_as(payload.password@, hashed) && #[trigger] stored_as(
                    old(state).db@,
                    final(state).db@,
                    *payload,
                    hashed,
                    id,
                    now,
                    created,
                ),
    {
        UserRepositoryImpl::create(state, payload)
    }

    /// Changes an account, hashing the new password if there is one and
    /// writing the current time where a time is written.
    pub fn update(state: &mut AppState, payload: &UpdateUserPayload) -> (outcome: Result<
        Id,
        ApiError,
    >)
        requires
            old(state).db@.wf(),
        ensures
            final(state).db@.wf(),
            final(state).db@.tickets == old(state).db@.tickets,
            exists|now: Timestamp| #[trigger]
                carried_out(
                    old(state).db@.users,
                    final(state).db@.users,
                    *payload,
                    None,
                    now,
                    outcome,
                ),
    {
        UserRepositoryImpl::update(state, payload)
    }

    /// Deletes the account with this identifier. Deleting what is not there
    /// succeeds and changes nothing.
    pub fn delete(state: &mut AppState, payload: &DeletePayload) -> (outcome: Result<(), ApiError>)
        requires
            old(state).db@.wf(),
        ensures
            outcome is Ok,
            final(state).db@.wf(),
            final(state).db@.tickets == old(state).db@.tickets,
            final(state).db@.users == without_user(old(state).db@.users, payload.id),
            !has_user(final(state).db@.users, payload.id),
    {
        UserRepositoryImpl::delete(state, payload)
    }
}

} // verus!
