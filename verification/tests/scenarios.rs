use tickify_api::config::Config;
use tickify_api::controllers::auth::{login, login_at, register, verify, verify_at};
use tickify_api::controllers::ticket::{
    create_ticket, delete_ticket, find_ticket_by_id, update_ticket,
};
use tickify_api::controllers::user::add_user;
use tickify_api::database::AppState;
use tickify_api::errors::api_error::ApiError;
use tickify_api::errors::auth_error::AuthError;
use tickify_api::middlewares::authorization::{authorize, authorize_at, AuthorizationHeader};
use tickify_api::models::auth::token::VerifyTokenPayload;
use tickify_api::models::auth::LoginPayload;
use tickify_api::models::ticket::{CreateTicketPayload, TicketStatus, UpdateTicketPayload};
use tickify_api::models::user::{CreateUserPayload, RegisterPayload, Role, Status, User};
use tickify_api::models::{DeletePayload, Id};
use tickify_api::utils::jwt::decode_jwt;

fn settings() -> Config {
    Config {
        host: None,
        database_url: None,
        postgres_db: None,
        jwt_secret: Some("s3cret".to_string()),
        jwt_expiration_time: Some("3600".to_string()),
    }
}

fn account(state: &mut AppState, username: &str, role: Role, status: Status) -> User {
    let id = add_user(
        state,
        &CreateUserPayload {
            username: username.to_string(),
            email: None,
            password: "correct horse".to_string(),
            first_name: None,
            last_name: None,
            role: Some(role),
            status: Some(status),
        },
    )
    .unwrap();
    state.db.users.iter().find(|user| user.id == id).unwrap().clone()
}

fn credentials(username: &str, password: &str) -> LoginPayload {
    LoginPayload {
        username: username.to_string(),
        password: password.to_string(),
    }
}

fn change(id: Id) -> UpdateTicketPayload {
    UpdateTicketPayload {
        id,
        title: None,
        description: None,
        requester: None,
        status: None,
        closed_by: None,
        solution: None,
    }
}

#[test]
fn alice_signs_in_and_opens_a_ticket() {
    let mut state = AppState::new();
    let config = settings();
    let admin = account(&mut state, "root", Role::Admin, Status::Active);
    account(&mut state, "alice", Role::User, Status::Active);
    let token = login(&state, &config, &credentials("alice", "correct horse")).unwrap();
    let header = AuthorizationHeader::Text(format!("Bearer {}", token));
    let alice = authorize(&state, &config, &header).unwrap();
    assert_eq!(alice.username, "alice");
    assert_eq!(alice.role, Role::User);
    let id = create_ticket(
        &mut state,
        &alice,
        CreateTicketPayload {
            title: "Printer broken".to_string(),
            description: "The printer on floor 2 jams on every print job".to_string(),
            requester: None,
        },
    )
    .unwrap();
    let ticket = find_ticket_by_id(&state, &admin, id).unwrap();
    assert_eq!(ticket.requester.username, "alice");
    assert_eq!(ticket.status, TicketStatus::Open);
    assert_eq!(ticket.closed_at, None);
    assert_eq!(ticket.title, "Printer broken");
    assert_eq!(
        ticket.description,
        "The printer on floor 2 jams on every print job"
    );
}

#[test]
fn an_admin_closes_the_ticket_and_then_renames_it() {
    let mut state = AppState::new();
    let admin = account(&mut state, "root", Role::Admin, Status::Active);
    let alice = account(&mut state, "alice", Role::User, Status::Active);
    let id = create_ticket(
        &mut state,
        &alice,
        CreateTicketPayload {
            title: "Printer broken".to_string(),
            description: "The printer on floor 2 jams on every print job".to_string(),
            requester: None,
        },
    )
    .unwrap();
    let mut closing = change(id);
    closing.status = Some(TicketStatus::Closed);
    assert_eq!(update_ticket(&mut state, &admin, closing).unwrap(), id);
    let closed = find_ticket_by_id(&state, &admin, id).unwrap();
    assert_eq!(closed.status, TicketStatus::Closed);
    assert!(closed.closed_at.is_some());
    assert_eq!(closed.closed_at, Some(closed.updated_at));
    let mut renaming = change(id);
    renaming.title = Some("Printer fixed".to_string());
    assert_eq!(update_ticket(&mut state, &admin, renaming).unwrap(), id);
    let renamed = find_ticket_by_id(&state, &admin, id).unwrap();
    assert_eq!(renamed.title, "Printer fixed");
    assert_eq!(renamed.status, TicketStatus::Closed);
    assert_eq!(renamed.closed_at, closed.closed_at);
}

#[test]
fn deleting_a_ticket_that_does_not_exist_touches_nothing() {
    let mut state = AppState::new();
    let admin = account(&mut state, "root", Role::Admin, Status::Active);
    let before = state.clone();
    assert!(matches!(
        delete_ticket(&mut state, &admin, DeletePayload { id: Id { value: 404 } }),
        Err(ApiError::NotFound)
    ));
    assert_eq!(state, before);
}

#[test]
fn signing_in_is_refused_for_each_reason_in_turn() {
    let mut state = AppState::new();
    let config = settings();
    account(&mut state, "alice", Role::User, Status::Active);
    account(&mut state, "idle", Role::User, Status::Inactive);
    assert!(matches!(
        login(&state, &config, &credentials("nobody", "correct horse")),
        Err(ApiError::NotFound)
    ));
    assert!(matches!(
        login(&state, &config, &credentials("idle", "correct horse")),
        Err(ApiError::Unauthorized)
    ));
    // an account that is not active is refused before its password is looked at
    assert!(matches!(
        login(&state, &config, &credentials("idle", "wrong")),
        Err(ApiError::Unauthorized)
    ));
    assert!(matches!(
        login(&state, &config, &credentials("alice", "battery staple")),
        Err(ApiError::WrongPassword)
    ));
    let mut unset = settings();
    unset.jwt_secret = None;
    assert!(matches!(
        login(&state, &unset, &credentials("alice", "correct horse")),
        Err(ApiError::ConfigError(_))
    ));
    let token = login_at(&state, &config, &credentials("alice", "correct horse"), 1_700_000_000).unwrap();
    let payload = VerifyTokenPayload { token };
    assert_eq!(verify_at(&config, &payload, 1_700_000_001).unwrap(), "Token is valid!");
    assert!(matches!(
        verify_at(&config, &payload, 1_700_003_600),
        Err(ApiError::JWTError(_))
    ));
    assert!(matches!(verify(&config, &payload), Err(ApiError::JWTError(_))));
}

#[test]
fn a_token_carries_the_role_of_the_account() {
    let mut state = AppState::new();
    let config = settings();
    account(&mut state, "root", Role::Admin, Status::Active);
    let token = login(&state, &config, &credentials("root", "correct horse")).unwrap();
    let claims = decode_jwt(token.clone(), &config).unwrap();
    assert_eq!(claims.sub, "root");
    assert_eq!(claims.role, "admin");
    assert_eq!(claims.exp - claims.iat, 3600);
    assert_eq!(verify(&config, &VerifyTokenPayload { token }).unwrap(), "Token is valid!");
}

#[test]
fn a_request_is_resolved_to_the_account_of_its_token() {
    let mut state = AppState::new();
    let config = settings();
    account(&mut state, "alice", Role::User, Status::Active);
    let token = login_at(&state, &config, &credentials("alice", "correct horse"), 1_700_000_000).unwrap();
    let header = AuthorizationHeader::Text(format!("Bearer {}", token));
    assert_eq!(
        authorize_at(&state, &config, &header, 1_700_000_100).unwrap().username,
        "alice"
    );
    assert_eq!(
        authorize_at(&state, &config, &header, 1_700_003_600),
        Err(ApiError::AuthError(AuthError::InvalidToken))
    );
    assert_eq!(
        authorize_at(&state, &config, &AuthorizationHeader::Missing, 0),
        Err(ApiError::AuthError(AuthError::MissingToken))
    );
    assert_eq!(
        authorize_at(&state, &config, &AuthorizationHeader::Unreadable, 0),
        Err(ApiError::AuthError(AuthError::EmptyHeader))
    );
    assert_eq!(
        authorize_at(&state, &config, &AuthorizationHeader::Text("Bearer".to_string()), 0),
        Err(ApiError::AuthError(AuthError::MissingToken))
    );
    // the account of a valid token may be gone
    let alice = state.db.users[0].id;
    state.db.delete_user(alice);
    assert!(matches!(
        authorize_at(&state, &config, &header, 1_700_000_100),
        Err(ApiError::DatabaseError(_))
    ));
}

#[test]
fn a_visitor_signs_up_and_signs_in() {
    let mut state = AppState::new();
    let config = settings();
    let id = register(
        &mut state,
        RegisterPayload {
            username: "carol".to_string(),
            email: Some("carol@example.com".to_string()),
            password: "a long password".to_string(),
            first_name: None,
            last_name: None,
        },
    )
    .unwrap();
    assert_eq!(state.db.users[0].id, id);
    let token = login(&state, &config, &credentials("carol", "a long password")).unwrap();
    assert_eq!(decode_jwt(token, &config).unwrap().role, "user");
}
