use tickify_api::controllers::auth::{register, register_with};
use tickify_api::controllers::user::{
    add_user, add_user_with, check_new_user, count_users, create_user, create_user_with,
    delete_user, find_all_users, find_user_by_id, update_user,
};
use tickify_api::database::repositories::user_repository::{
    UserReply, UserRepositoryImpl, UserStage, UserStep, UserUpdate,
};
use tickify_api::database::users::UserColumn;
use tickify_api::database::AppState;
use tickify_api::errors::api_error::ApiError;
use tickify_api::models::user::{
    CreateUserPayload, RegisterPayload, Role, Status, UpdateUserPayload, User,
};
use tickify_api::models::{DeletePayload, Id, Timestamp};
use tickify_api::utils::hashing::verify_password;
use tickify_api::validations::existence::user_exists;
use tickify_api::validations::uniqueness::is_user_unique;

fn new_account(username: &str, role: Option<Role>) -> CreateUserPayload {
    CreateUserPayload {
        username: username.to_string(),
        email: Some(format!("{}@example.com", username)),
        password: "correct horse".to_string(),
        first_name: Some("Alice".to_string()),
        last_name: None,
        role,
        status: None,
    }
}

fn stored(state: &AppState, id: Id) -> User {
    state.db.users.iter().find(|user| user.id == id).unwrap().clone()
}

fn admin(state: &mut AppState) -> User {
    let id = add_user(state, &new_account("root", Some(Role::Admin))).unwrap();
    stored(state, id)
}

fn change(id: Id) -> UpdateUserPayload {
    UpdateUserPayload {
        id,
        username: None,
        email: None,
        password: None,
        first_name: None,
        last_name: None,
        role: None,
        status: None,
    }
}

#[test]
fn a_created_account_is_found_as_it_was_asked_for() {
    let mut state = AppState::new();
    let root = admin(&mut state);
    let id = create_user(&mut state, &root, new_account("alice", None)).unwrap();
    let found = find_user_by_id(&state, &root, id).unwrap();
    assert_eq!(found.id, id);
    assert_eq!(found.username, "alice");
    assert_eq!(found.email.as_deref(), Some("alice@example.com"));
    assert_eq!(found.first_name.as_deref(), Some("Alice"));
    assert_eq!(found.last_name, None);
    assert_eq!(found.role, Role::User);
    assert_eq!(found.status, Status::Active);
    let row = stored(&state, id);
    assert_ne!(row.password_hash, "correct horse");
    assert_eq!(verify_password("correct horse", &row.password_hash).unwrap(), true);
    assert_eq!(count_users(&state, &root).unwrap(), 2);
    let all = find_all_users(&state, &root).unwrap();
    assert_eq!(all.len(), 2);
    assert_eq!(all[0].username, "root");
    assert_eq!(all[1], found);
}

#[test]
fn a_username_is_given_out_once() {
    let mut state = AppState::new();
    let visitor = |username: &str| RegisterPayload {
        username: username.to_string(),
        email: None,
        password: "correct horse".to_string(),
        first_name: None,
        last_name: None,
    };
    assert!(is_user_unique(&state, "alice").is_ok());
    let id = register(&mut state, visitor("alice")).unwrap();
    assert_eq!(stored(&state, id).role, Role::User);
    assert!(matches!(
        is_user_unique(&state, "alice"),
        Err(ApiError::AlreadyExists)
    ));
    let before = state.clone();
    assert!(matches!(
        register(&mut state, visitor("alice")),
        Err(ApiError::AlreadyExists)
    ));
    assert_eq!(state, before);
    let root = admin(&mut state);
    assert!(matches!(
        create_user(&mut state, &root, new_account("alice", None)),
        Err(ApiError::AlreadyExists)
    ));
    // usernames are compared as they are
    assert!(register(&mut state, visitor("Alice")).is_ok());
    // past the check, the store itself refuses the duplicate
    assert!(matches!(
        UserRepositoryImpl::create(&mut state, &new_account("alice", None)),
        Err(ApiError::DatabaseError(_))
    ));
    let mut copy = stored(&state, id);
    copy.username = "carol".to_string();
    assert!(matches!(
        UserRepositoryImpl::insert(&mut state, copy),
        Err(ApiError::DatabaseError(_))
    ));
}

#[test]
fn a_registration_is_checked_before_anything_is_stored() {
    let mut state = AppState::new();
    let payload = RegisterPayload {
        username: "al".to_string(),
        email: None,
        password: "correct horse".to_string(),
        first_name: None,
        last_name: None,
    };
    match register(&mut state, payload) {
        Err(ApiError::ValidationError(errors)) => {
            assert_eq!(errors.to_string(), "username: Username must be between 3 and 20 chars.")
        }
        other => panic!("unexpected {:?}", other),
    }
    assert!(state.db.users.is_empty());
}

#[test]
fn accounts_are_kept_for_privileged_callers() {
    let mut state = AppState::new();
    let root = admin(&mut state);
    let alice_id = create_user(&mut state, &root, new_account("alice", None)).unwrap();
    let alice = stored(&state, alice_id);
    let mut idle = root.clone();
    idle.status = Status::Inactive;
    let before = state.clone();
    for caller in [&alice, &idle] {
        assert!(matches!(count_users(&state, caller), Err(ApiError::Unauthorized)));
        assert!(matches!(find_all_users(&state, caller), Err(ApiError::Unauthorized)));
        assert!(matches!(
            find_user_by_id(&state, caller, alice_id),
            Err(ApiError::Unauthorized)
        ));
        assert!(matches!(
            create_user(&mut state, caller, new_account("bob", None)),
            Err(ApiError::Unauthorized)
        ));
        let mut payload = change(alice_id);
        payload.role = Some(Role::Admin);
        assert!(matches!(
            update_user(&mut state, caller, payload),
            Err(ApiError::Unauthorized)
        ));
        assert!(matches!(
            delete_user(&mut state, caller, DeletePayload { id: alice_id }),
            Err(ApiError::Unauthorized)
        ));
    }
    assert_eq!(state, before);
    let moderator_id = create_user(&mut state, &root, new_account("mod", Some(Role::Moderator))).unwrap();
    let moderator = stored(&state, moderator_id);
    assert_eq!(count_users(&state, &moderator).unwrap(), 3);
}

#[test]
fn a_change_to_an_account_is_carried_out_field_by_field() {
    let now = Timestamp { micros: 7 };
    let id = Id { value: 3 };
    let payload = UpdateUserPayload {
        id,
        username: Some("alice2".to_string()),
        email: None,
        password: Some("new password".to_string()),
        first_name: None,
        last_name: Some("Liddell".to_string()),
        role: Some(Role::Moderator),
        status: Some(Status::Inactive),
    };
    let mut taken = Vec::new();
    let mut state = UserUpdate::new();
    let mut reply = UserReply::Ready;
    loop {
        let (next, step) = state.step(&reply, &payload, now);
        state = next;
        reply = match &step {
            UserStep::Probe => UserReply::Found(true),
            UserStep::Write(_) => UserReply::Written,
            UserStep::HashPassword(password) => UserReply::Hashed(format!("hash of {}", password)),
            UserStep::Done(_) | UserStep::NothingToDo | UserStep::NotFound | UserStep::Failed => {
                taken.push(step);
                break;
            }
        };
        taken.push(step);
    }
    assert_eq!(
        taken,
        vec![
            UserStep::Probe,
            UserStep::Write(UserColumn::Username("alice2".to_string())),
            UserStep::HashPassword("new password".to_string()),
            UserStep::Write(UserColumn::PasswordHash("hash of new password".to_string())),
            UserStep::Write(UserColumn::LastName("Liddell".to_string())),
            UserStep::Write(UserColumn::Role(Role::Moderator)),
            UserStep::Write(UserColumn::Status(Status::Inactive)),
            UserStep::Write(UserColumn::UpdatedAt(now)),
            UserStep::Done(id),
        ]
    );
    let (state, step) = UserUpdate::new().step(&UserReply::Ready, &change(id), now);
    assert_eq!(step, UserStep::Probe);
    assert_eq!(state.step(&UserReply::Found(true), &change(id), now).1, UserStep::NothingToDo);
    assert_eq!(state.step(&UserReply::Found(false), &change(id), now).1, UserStep::NotFound);
    assert_eq!(state.step(&UserReply::Found(false), &payload, now).1, UserStep::NotFound);
    // a step that fails ends the change, whatever is left to write
    let (state, step) = state.step(&UserReply::Found(true), &payload, now);
    assert_eq!(step, UserStep::Write(UserColumn::Username("alice2".to_string())));
    let (state, step) = state.step(&UserReply::Failed, &payload, now);
    assert_eq!(step, UserStep::Failed);
    assert_eq!(state.step(&UserReply::Written, &payload, now).1, UserStep::Failed);
}

#[test]
fn a_change_to_an_account_overwrites_what_it_names() {
    let mut state = AppState::new();
    let root = admin(&mut state);
    let id = create_user(&mut state, &root, new_account("alice", None)).unwrap();
    let before = stored(&state, id);
    let mut payload = change(id);
    payload.email = Some("alice@wonderland.org".to_string());
    payload.role = Some(Role::Moderator);
    let now = Timestamp { micros: 99 };
    assert_eq!(
        UserRepositoryImpl::update_with(&mut state, &payload, None, now).unwrap(),
        id
    );
    assert_eq!(
        stored(&state, id),
        User {
            email: Some("alice@wonderland.org".to_string()),
            role: Role::Moderator,
            updated_at: now,
            ..before.clone()
        }
    );
    assert_eq!(stored(&state, root.id), root);
    let mut payload = change(id);
    payload.password = Some("a new password".to_string());
    assert_eq!(update_user(&mut state, &root, payload).unwrap(), id);
    let after = stored(&state, id);
    assert_ne!(after.password_hash, before.password_hash);
    assert_eq!(verify_password("a new password", &after.password_hash).unwrap(), true);
    assert!(verify_password("correct horse", &after.password_hash).is_err());
    assert_eq!(after.email.as_deref(), Some("alice@wonderland.org"));
}

#[test]
fn an_empty_change_to_an_account_is_not_modified() {
    let mut state = AppState::new();
    let root = admin(&mut state);
    let before = state.clone();
    assert!(matches!(
        update_user(&mut state, &root, change(root.id)),
        Err(ApiError::NotModified)
    ));
    assert!(matches!(
        UserRepositoryImpl::update(&mut state, &change(root.id)),
        Err(ApiError::NotModified)
    ));
    assert_eq!(state, before);
}

#[test]
fn a_taken_username_is_refused_by_the_store() {
    let mut state = AppState::new();
    let root = admin(&mut state);
    let id = create_user(&mut state, &root, new_account("alice", None)).unwrap();
    let before = state.clone();
    let mut payload = change(id);
    payload.username = Some("root".to_string());
    payload.role = Some(Role::Admin);
    assert!(matches!(
        update_user(&mut state, &root, payload),
        Err(ApiError::DatabaseError(_))
    ));
    assert_eq!(state, before);
    // an account may be given the username it has
    let mut payload = change(id);
    payload.username = Some("alice".to_string());
    assert!(update_user(&mut state, &root, payload).is_ok());
}

#[test]
fn a_failure_to_hash_stops_the_change_where_it_is() {
    let mut state = AppState::new();
    let root = admin(&mut state);
    let id = create_user(&mut state, &root, new_account("alice", None)).unwrap();
    let before = stored(&state, id);
    let payload = UpdateUserPayload {
        id,
        username: Some("alice2".to_string()),
        email: None,
        password: Some("a new password".to_string()),
        first_name: Some("Alicia".to_string()),
        last_name: None,
        role: None,
        status: None,
    };
    let failed = Some(Err(ApiError::EncryptionError("out of memory".to_string())));
    assert_eq!(
        UserRepositoryImpl::update_with(&mut state, &payload, failed, Timestamp { micros: 5 }),
        Err(ApiError::EncryptionError("out of memory".to_string()))
    );
    assert_eq!(
        stored(&state, id),
        User {
            username: "alice2".to_string(),
            ..before
        }
    );
    let hashed = Some(Ok("$hash".to_string()));
    UserRepositoryImpl::update_with(&mut state, &payload, hashed, Timestamp { micros: 6 }).unwrap();
    let after = stored(&state, id);
    assert_eq!(after.password_hash, "$hash");
    assert_eq!(after.first_name.as_deref(), Some("Alicia"));
    assert_eq!(after.updated_at, Timestamp { micros: 6 });
}

#[test]
fn an_account_that_is_not_there_is_not_found() {
    let mut state = AppState::new();
    let root = admin(&mut state);
    let missing = Id { value: root.id.value ^ 1 };
    let before = state.clone();
    assert!(user_exists(&state, root.id).is_ok());
    assert!(matches!(user_exists(&state, missing), Err(ApiError::NotFound)));
    assert!(matches!(
        find_user_by_id(&state, &root, missing),
        Err(ApiError::NotFound)
    ));
    let mut payload = change(missing);
    payload.role = Some(Role::Admin);
    assert!(matches!(
        update_user(&mut state, &root, payload),
        Err(ApiError::NotFound)
    ));
    assert!(matches!(
        delete_user(&mut state, &root, DeletePayload { id: missing }),
        Err(ApiError::NotFound)
    ));
    assert_eq!(state, before);
    let mut payload = change(missing);
    payload.role = Some(Role::Admin);
    assert_eq!(
        UserRepositoryImpl::update(&mut state, &payload),
        Err(ApiError::NotFound)
    );
    assert_eq!(
        UserRepositoryImpl::update(&mut state, &change(missing)),
        Err(ApiError::NotFound)
    );
    assert_eq!(state, before);
    assert!(UserRepositoryImpl::delete(&mut state, &DeletePayload { id: missing }).is_ok());
    assert_eq!(state, before);
    let id = create_user(&mut state, &root, new_account("alice", None)).unwrap();
    assert!(delete_user(&mut state, &root, DeletePayload { id }).is_ok());
    assert_eq!(state, before);
}

#[test]
fn a_new_account_defaults_to_an_active_user() {
    let user = User::new("alice", None, "$hash", None, Some("Liddell".to_string()), None, None);
    assert_eq!(user.username, "alice");
    assert_eq!(user.email, None);
    assert_eq!(user.password_hash, "$hash");
    assert_eq!(user.first_name, None);
    assert_eq!(user.last_name.as_deref(), Some("Liddell"));
    assert_eq!(user.role, Role::User);
    assert_eq!(user.status, Status::Active);
    let other = User::new("bob", None, "$hash", None, None, Some(Role::Admin), Some(Status::Inactive));
    assert_eq!(other.role, Role::Admin);
    assert_eq!(other.status, Status::Inactive);
    assert_ne!(user.id, other.id);
    let shown = user.to_public();
    assert_eq!(shown.id, user.id);
    assert_eq!(shown.username, "alice");
}

#[test]
fn a_password_is_hashed_when_its_turn_comes() {
    let mut state = AppState::new();
    let root = admin(&mut state);
    let mut payload = change(root.id);
    payload.password = Some("a new password".to_string());
    let now = Timestamp { micros: 11 };
    assert_eq!(
        UserRepositoryImpl::update_with(&mut state, &payload, None, now).unwrap(),
        root.id
    );
    let after = stored(&state, root.id);
    assert_eq!(verify_password("a new password", &after.password_hash).unwrap(), true);
    assert_eq!(after.updated_at, now);
    assert_eq!(
        after,
        User {
            password_hash: after.password_hash.clone(),
            updated_at: now,
            ..root
        }
    );
}

#[test]
fn an_account_is_created_under_the_identifier_that_was_drawn() {
    let mut state = AppState::new();
    let root = admin(&mut state);
    let now = Timestamp { micros: 9_000 };
    let id = Id { value: 41 };
    let hashed = || Ok("$hash".to_string());
    assert_eq!(
        create_user_with(&mut state, &root, new_account("alice", None), hashed(), id, now),
        Ok(id)
    );
    assert_eq!(
        stored(&state, id),
        User {
            id,
            username: "alice".to_string(),
            email: Some("alice@example.com".to_string()),
            password_hash: "$hash".to_string(),
            first_name: Some("Alice".to_string()),
            last_name: None,
            role: Role::User,
            status: Status::Active,
            created_at: now,
            updated_at: now,
        }
    );
    let before = state.clone();
    // each check in its turn
    let alice = stored(&state, id);
    assert_eq!(
        create_user_with(&mut state, &alice, new_account("bob", None), hashed(), Id { value: 42 }, now),
        Err(ApiError::Unauthorized)
    );
    assert!(matches!(
        add_user_with(&mut state, &new_account("bo", None), hashed(), Id { value: 42 }, now),
        Err(ApiError::ValidationError(_))
    ));
    assert_eq!(
        add_user_with(&mut state, &new_account("alice", None), hashed(), Id { value: 42 }, now),
        Err(ApiError::AlreadyExists)
    );
    assert_eq!(
        add_user_with(
            &mut state,
            &new_account("bob", None),
            Err(ApiError::EncryptionError("out of memory".to_string())),
            Id { value: 42 },
            now
        ),
        Err(ApiError::EncryptionError("out of memory".to_string()))
    );
    assert!(matches!(
        add_user_with(&mut state, &new_account("bob", None), hashed(), id, now),
        Err(ApiError::DatabaseError(_))
    ));
    assert_eq!(state, before);
    assert_eq!(
        add_user_with(&mut state, &new_account("bob", Some(Role::Moderator)), hashed(), Id { value: 42 }, now),
        Ok(Id { value: 42 })
    );
    assert_eq!(stored(&state, Id { value: 42 }).role, Role::Moderator);
    let visitor = RegisterPayload {
        username: "carol".to_string(),
        email: None,
        password: "correct horse".to_string(),
        first_name: None,
        last_name: None,
    };
    assert_eq!(
        register_with(&mut state, visitor, hashed(), Id { value: 43 }, now),
        Ok(Id { value: 43 })
    );
    assert_eq!(stored(&state, Id { value: 43 }).role, Role::User);
    assert!(check_new_user(&state, &new_account("dave", None)).is_ok());
    assert_eq!(
        check_new_user(&state, &new_account("carol", None)),
        Err(ApiError::AlreadyExists)
    );
}

#[test]
fn a_failure_partway_keeps_what_was_written_to_the_account() {
    let mut state = AppState::new();
    let root = admin(&mut state);
    let id = create_user(&mut state, &root, new_account("alice", None)).unwrap();
    let start = state.clone();
    let untouched = stored(&state, id);
    let payload = UpdateUserPayload {
        id,
        username: Some("alice2".to_string()),
        email: Some("alice@wonderland.org".to_string()),
        password: Some("a new password".to_string()),
        first_name: None,
        last_name: Some("Liddell".to_string()),
        role: Some(Role::Moderator),
        status: None,
    };
    let now = Timestamp { micros: 21 };
    let hashed = || Some(Ok("$hash".to_string()));
    // the write of the last name fails: what comes before it is written, the
    // rest is not, and the time of the change is not stamped
    assert!(matches!(
        UserRepositoryImpl::update_until(&mut state, &payload, hashed(), now, Some(UserStage::LastName)),
        Err(ApiError::DatabaseError(_))
    ));
    assert_eq!(
        stored(&state, id),
        User {
            username: "alice2".to_string(),
            email: Some("alice@wonderland.org".to_string()),
            password_hash: "$hash".to_string(),
            ..untouched.clone()
        }
    );
    // the probe fails: nothing is written
    let mut state = start.clone();
    assert!(matches!(
        UserRepositoryImpl::update_until(&mut state, &payload, hashed(), now, Some(UserStage::Exists)),
        Err(ApiError::DatabaseError(_))
    ));
    assert_eq!(state, start);
    // the hasher fails before the store does
    let mut state = start.clone();
    assert_eq!(
        UserRepositoryImpl::update_until(
            &mut state,
            &payload,
            Some(Err(ApiError::EncryptionError("out of memory".to_string()))),
            now,
            Some(UserStage::Role)
        ),
        Err(ApiError::EncryptionError("out of memory".to_string()))
    );
    assert_eq!(stored(&state, id).email.as_deref(), Some("alice@wonderland.org"));
    assert_eq!(stored(&state, id).password_hash, untouched.password_hash);
    // a step that the change does not come to cannot fail it
    let mut state = start.clone();
    assert_eq!(
        UserRepositoryImpl::update_until(&mut state, &payload, hashed(), now, Some(UserStage::Status)),
        Ok(id)
    );
    assert_eq!(stored(&state, id).updated_at, now);
    assert_eq!(stored(&state, id).role, Role::Moderator);
}
