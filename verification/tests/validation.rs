use tickify_api::models::auth::LoginPayload;
use tickify_api::models::ticket::{CreateTicketPayload, UpdateTicketPayload};
use tickify_api::models::user::{CreateUserPayload, RegisterPayload, Role, UpdateUserPayload};
use tickify_api::models::Id;
use tickify_api::validations::rules::{has_length_between, is_email};

fn fields(errors: &tickify_api::validations::ValidationErrors) -> Vec<(String, String)> {
    errors
        .errors
        .iter()
        .map(|error| (error.field.clone(), error.message.clone()))
        .collect()
}

fn register(username: &str, email: Option<&str>, password: &str) -> RegisterPayload {
    RegisterPayload {
        username: username.to_string(),
        email: email.map(String::from),
        password: password.to_string(),
        first_name: None,
        last_name: None,
    }
}

#[test]
fn length_is_counted_in_characters() {
    assert!(has_length_between("abc", 3, 20));
    assert!(!has_length_between("ab", 3, 20));
    assert!(has_length_between("12345678901234567890", 3, 20));
    assert!(!has_length_between("123456789012345678901", 3, 20));
    // three characters, nine bytes
    assert!(has_length_between("日本語", 3, 3));
    assert!(!has_length_between("", 1, 5));
}

#[test]
fn email_addresses_are_judged_by_their_form() {
    assert!(is_email("alice@example.com"));
    assert!(is_email("a.b+c@sub.example.org"));
    assert!(!is_email("alice"));
    assert!(!is_email("alice@"));
    assert!(!is_email("@example.com"));
    assert!(!is_email(""));
    assert!(!is_email("alice@exa mple.com"));
}

#[test]
fn a_well_formed_registration_passes() {
    assert!(register("alice", Some("alice@example.com"), "correct horse")
        .validate()
        .is_ok());
    assert!(register("alice", None, "12345678").validate().is_ok());
}

#[test]
fn a_registration_lists_every_broken_rule_in_order() {
    let payload = RegisterPayload {
        username: "al".to_string(),
        email: Some("nowhere".to_string()),
        password: "short".to_string(),
        first_name: Some("Al".to_string()),
        last_name: Some("Li".to_string()),
    };
    let errors = payload.validate().unwrap_err();
    assert_eq!(
        fields(&errors),
        vec![
            (
                "username".to_string(),
                "Username must be between 3 and 20 chars.".to_string()
            ),
            ("email".to_string(), "Invalid email".to_string()),
            (
                "password".to_string(),
                "Password must be between 8 and 100 chars.".to_string()
            ),
            (
                "first_name".to_string(),
                "First name must be between 3 and 20 chars.".to_string()
            ),
            (
                "last_name".to_string(),
                "Last name must be between 3 and 20 chars.".to_string()
            ),
        ]
    );
}

#[test]
fn a_new_account_is_held_to_the_same_rules() {
    let payload = CreateUserPayload {
        username: "administrator-of-everything".to_string(),
        email: None,
        password: "root@toor".to_string(),
        first_name: None,
        last_name: None,
        role: Some(Role::Admin),
        status: None,
    };
    let errors = payload.validate().unwrap_err();
    assert_eq!(
        fields(&errors),
        vec![(
            "username".to_string(),
            "Username must be between 3 and 20 chars.".to_string()
        )]
    );
}

#[test]
fn a_registration_becomes_an_account_of_role_user() {
    let payload = CreateUserPayload::from(register("alice", Some("a@b.io"), "12345678"));
    assert_eq!(payload.username, "alice");
    assert_eq!(payload.email.as_deref(), Some("a@b.io"));
    assert_eq!(payload.password, "12345678");
    assert_eq!(payload.first_name, None);
    assert_eq!(payload.last_name, None);
    assert_eq!(payload.role, Some(Role::User));
    assert_eq!(payload.status, None);
}

#[test]
fn absent_fields_of_a_change_break_no_rule() {
    let payload = UpdateUserPayload {
        id: Id { value: 1 },
        username: None,
        email: None,
        password: None,
        first_name: None,
        last_name: None,
        role: None,
        status: None,
    };
    assert!(payload.validate().is_ok());
    let payload = UpdateUserPayload {
        id: Id { value: 1 },
        username: Some("x".to_string()),
        email: Some("x".to_string()),
        password: Some("x".to_string()),
        first_name: None,
        last_name: Some("Lovelace".to_string()),
        role: None,
        status: None,
    };
    let errors = payload.validate().unwrap_err();
    assert_eq!(
        fields(&errors)
            .iter()
            .map(|error| error.0.as_str())
            .collect::<Vec<_>>(),
        vec!["username", "email", "password"]
    );
}

#[test]
fn ticket_fields_have_their_bounds() {
    let payload = CreateTicketPayload {
        title: "Printer broken".to_string(),
        description: "The printer on floor 2 jams on every print job".to_string(),
        requester: None,
    };
    assert!(payload.validate().is_ok());
    let payload = CreateTicketPayload {
        title: "Pr".to_string(),
        description: "too short".to_string(),
        requester: None,
    };
    let errors = payload.validate().unwrap_err();
    assert_eq!(
        fields(&errors),
        vec![
            (
                "title".to_string(),
                "Title must be between 3 and 50 chars.".to_string()
            ),
            (
                "description".to_string(),
                "Description must be between 3 and 3000 chars.".to_string()
            ),
        ]
    );
    let long = "x".repeat(3001);
    let payload = CreateTicketPayload {
        title: "x".repeat(51),
        description: long,
        requester: None,
    };
    assert_eq!(payload.validate().unwrap_err().errors.len(), 2);
    let payload = CreateTicketPayload {
        title: "x".repeat(50),
        description: "x".repeat(3000),
        requester: None,
    };
    assert!(payload.validate().is_ok());
}

#[test]
fn a_change_to_a_ticket_checks_what_it_names() {
    let payload = UpdateTicketPayload {
        id: Id { value: 7 },
        title: None,
        description: None,
        requester: None,
        status: None,
        closed_by: None,
        solution: Some("rebooted".to_string()),
    };
    let errors = payload.validate().unwrap_err();
    assert_eq!(
        fields(&errors),
        vec![(
            "solution".to_string(),
            "Description must be between 10 and 3000 chars.".to_string()
        )]
    );
}

#[test]
fn a_login_needs_a_username_and_a_password_of_some_length() {
    let payload = LoginPayload {
        username: "alice".to_string(),
        password: "correct horse".to_string(),
    };
    assert!(payload.validate().is_ok());
    let payload = LoginPayload {
        username: "al".to_string(),
        password: "short".to_string(),
    };
    let errors = payload.validate().unwrap_err();
    assert_eq!(
        fields(&errors),
        vec![
            (
                "username".to_string(),
                "Password must be between 3 and 20 characters long".to_string()
            ),
            (
                "password".to_string(),
                "Password must be between 8 and 100 chars.".to_string()
            ),
        ]
    );
    let payload = LoginPayload {
        username: "a".repeat(500),
        password: "12345678".to_string(),
    };
    assert!(payload.validate().is_ok());
}
