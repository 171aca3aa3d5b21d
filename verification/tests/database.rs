use tickify_api::database::tickets::TicketColumn;
use tickify_api::database::users::UserColumn;
use tickify_api::database::{AppState, Tables};
use tickify_api::errors::api_error::ApiError;
use tickify_api::errors::export_error::ExportError;
use tickify_api::export::csv::csv_outcome;
use tickify_api::export::pdf::pdf_outcome;
use tickify_api::middlewares::authorization::identify;
use tickify_api::models::ticket::{Ticket, TicketStatus};
use tickify_api::models::user::{Role, Status, User};
use tickify_api::models::{same_text, Id, Timestamp};
use tickify_api::validations::existence::existence_verdict;
use tickify_api::validations::uniqueness::uniqueness_verdict;

fn user(id: u128, username: &str) -> User {
    User {
        id: Id { value: id },
        username: username.to_string(),
        email: None,
        password_hash: "$hash".to_string(),
        first_name: None,
        last_name: None,
        role: Role::User,
        status: Status::Active,
        created_at: Timestamp { micros: 1 },
        updated_at: Timestamp { micros: 1 },
    }
}

fn ticket(id: u128, requester: u128) -> Ticket {
    Ticket {
        id: Id { value: id },
        title: "Printer broken".to_string(),
        description: "It jams on every job".to_string(),
        requester: Id { value: requester },
        status: TicketStatus::Open,
        closed_by: None,
        solution: None,
        created_at: Timestamp { micros: 1 },
        updated_at: Timestamp { micros: 1 },
        closed_at: None,
    }
}

#[test]
fn the_store_keeps_keys_unique() {
    let mut tables = Tables::new();
    assert_eq!(tables.insert_user(user(1, "alice")), Ok(()));
    assert_eq!(
        tables.insert_user(user(1, "bob")),
        Err("duplicate key value violates unique constraint \"users_pkey\"".to_string())
    );
    assert_eq!(
        tables.insert_user(user(2, "alice")),
        Err("duplicate key value violates unique constraint \"users_username_key\"".to_string())
    );
    assert_eq!(tables.insert_user(user(2, "bob")), Ok(()));
    assert_eq!(tables.count_users(), 2);
    assert_eq!(tables.insert_ticket(ticket(10, 1)), Ok(()));
    assert_eq!(
        tables.insert_ticket(ticket(10, 2)),
        Err("duplicate key value violates unique constraint \"tickets_pkey\"".to_string())
    );
    assert_eq!(tables.count_tickets(), 1);
    assert_eq!(
        tables.update_user(Id { value: 2 }, &UserColumn::Username("alice".to_string())),
        Err("duplicate key value violates unique constraint \"users_username_key\"".to_string())
    );
    assert_eq!(
        tables.update_user(Id { value: 2 }, &UserColumn::Username("bob".to_string())),
        Ok(())
    );
    assert_eq!(
        tables.update_user(Id { value: 3 }, &UserColumn::Username("alice".to_string())),
        Ok(())
    );
    assert_eq!(tables.users, vec![user(1, "alice"), user(2, "bob")]);
}

#[test]
fn a_statement_writes_one_column_of_one_row() {
    let mut tables = Tables::new();
    tables.insert_user(user(1, "alice")).unwrap();
    tables.insert_ticket(ticket(10, 1)).unwrap();
    tables.insert_ticket(ticket(11, 1)).unwrap();
    let at = Timestamp { micros: 77 };
    tables.update_ticket(Id { value: 10 }, &TicketColumn::Status(TicketStatus::Paused));
    tables.update_ticket(Id { value: 10 }, &TicketColumn::ClosedAt(at));
    tables.update_ticket(Id { value: 10 }, &TicketColumn::ClosedBy(Id { value: 1 }));
    tables.update_ticket(Id { value: 10 }, &TicketColumn::Solution("Fixed".to_string()));
    tables.update_ticket(Id { value: 12 }, &TicketColumn::Title("Nothing".to_string()));
    assert_eq!(
        tables.tickets[0],
        Ticket {
            status: TicketStatus::Paused,
            closed_at: Some(at),
            closed_by: Some(Id { value: 1 }),
            solution: Some("Fixed".to_string()),
            ..ticket(10, 1)
        }
    );
    assert_eq!(tables.tickets[1], ticket(11, 1));
    assert_eq!(tables.select_ticket_status(Id { value: 10 }), Some(TicketStatus::Paused));
    assert_eq!(tables.select_ticket_status(Id { value: 12 }), None);
    tables
        .update_user(Id { value: 1 }, &UserColumn::Email("a@b.io".to_string()))
        .unwrap();
    tables.update_user(Id { value: 1 }, &UserColumn::Role(Role::Admin)).unwrap();
    assert_eq!(
        tables.users[0],
        User {
            email: Some("a@b.io".to_string()),
            role: Role::Admin,
            ..user(1, "alice")
        }
    );
    assert_eq!(
        ticket(10, 1).with_column(&TicketColumn::UpdatedAt(at)).updated_at,
        at
    );
    assert_eq!(
        user(1, "alice")
            .with_column(&UserColumn::Status(Status::Inactive))
            .status,
        Status::Inactive
    );
}

#[test]
fn rows_are_found_by_their_keys() {
    let mut tables = Tables::new();
    tables.insert_user(user(1, "alice")).unwrap();
    tables.insert_user(user(2, "bob")).unwrap();
    tables.insert_ticket(ticket(10, 2)).unwrap();
    assert_eq!(tables.user_position(Id { value: 2 }), Some(1));
    assert_eq!(tables.user_position(Id { value: 3 }), None);
    assert_eq!(tables.username_position("alice"), Some(0));
    assert_eq!(tables.username_position("Alice"), None);
    assert_eq!(tables.ticket_position(Id { value: 10 }), Some(0));
    assert!(tables.user_exists(Id { value: 1 }));
    assert!(!tables.user_exists(Id { value: 10 }));
    assert!(tables.ticket_exists(Id { value: 10 }));
    assert!(tables.username_exists("bob"));
    assert!(!tables.username_exists("carol"));
    assert_eq!(tables.select_user_by_username("bob"), Some(user(2, "bob")));
    assert_eq!(tables.select_user_by_username("carol"), None);
    assert_eq!(tables.select_user(Id { value: 1 }), Some(user(1, "alice").to_public()));
    assert_eq!(tables.select_users().len(), 2);
    let shown = tables.select_ticket(Id { value: 10 }).unwrap();
    assert_eq!(shown.requester, user(2, "bob").to_requester());
    assert_eq!(tables.select_tickets(), vec![shown]);
    tables.delete_ticket(Id { value: 11 });
    assert_eq!(tables.count_tickets(), 1);
    tables.delete_ticket(Id { value: 10 });
    assert_eq!(tables.count_tickets(), 0);
    tables.delete_user(Id { value: 1 });
    assert_eq!(tables.users, vec![user(2, "bob")]);
    let state = AppState::new();
    assert!(state.db.users.is_empty() && state.db.tickets.is_empty());
}

#[test]
fn probes_are_answered_by_what_they_find() {
    assert!(existence_verdict(true).is_ok());
    assert_eq!(existence_verdict(false), Err(ApiError::NotFound));
    assert!(uniqueness_verdict(false).is_ok());
    assert_eq!(uniqueness_verdict(true), Err(ApiError::AlreadyExists));
    assert_eq!(identify(Some(user(1, "alice"))), Ok(user(1, "alice")));
    assert!(matches!(identify(None), Err(ApiError::DatabaseError(_))));
}

#[test]
fn a_failure_to_render_is_an_export_error() {
    assert_eq!(csv_outcome(Ok(vec![1, 2])), Ok(vec![1, 2]));
    assert_eq!(
        csv_outcome(Err("found record with 9 fields".to_string())),
        Err(ApiError::ExportError(ExportError::CSVError(
            "found record with 9 fields".to_string()
        )))
    );
    assert_eq!(pdf_outcome(Ok(vec![3])), Ok(vec![3]));
    assert_eq!(
        pdf_outcome(Err("invalid stream".to_string())),
        Err(ApiError::ExportError(ExportError::PDFError(
            "invalid stream".to_string()
        )))
    );
}

#[test]
fn names_are_read_back() {
    for status in [
        TicketStatus::Open,
        TicketStatus::InProgress,
        TicketStatus::Closed,
        TicketStatus::Reopened,
        TicketStatus::Paused,
        TicketStatus::Cancelled,
    ] {
        assert_eq!(TicketStatus::parse(&status.key()), Some(status));
    }
    assert_eq!(TicketStatus::InProgress.key(), "inprogress");
    assert_eq!(TicketStatus::parse("Open"), None);
    assert_eq!(TicketStatus::parse(""), None);
    for role in [Role::User, Role::Moderator, Role::Admin] {
        assert_eq!(Role::parse(&role.to_string()), Some(role));
    }
    assert_eq!(Role::parse("root"), None);
    for status in [Status::Active, Status::Inactive] {
        assert_eq!(Status::parse(&status.to_string()), Some(status));
    }
    assert_eq!(Status::Inactive.to_string(), "inactive");
    assert_eq!(Status::parse("ACTIVE"), None);
    assert!(same_text("abc", "abc"));
    assert!(!same_text("abc", "abd"));
}

#[test]
fn tables_can_be_checked_for_unique_keys() {
    let mut tables = Tables::new();
    assert!(tables.is_well_formed());
    tables.insert_user(user(1, "alice")).unwrap();
    tables.insert_user(user(2, "bob")).unwrap();
    tables.insert_ticket(ticket(10, 1)).unwrap();
    tables.insert_ticket(ticket(11, 1)).unwrap();
    assert!(tables.is_well_formed());
    let mut twice = tables.clone();
    twice.users.push(user(1, "carol"));
    assert!(!twice.is_well_formed());
    let mut namesake = tables.clone();
    namesake.users.push(user(3, "alice"));
    assert!(!namesake.is_well_formed());
    let mut copy = tables.clone();
    copy.tickets.push(ticket(10, 2));
    assert!(!copy.is_well_formed());
    copy.tickets.pop();
    assert!(copy.is_well_formed());
}
