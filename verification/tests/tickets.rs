use tickify_api::controllers::ticket::{
    assign_requester, count_tickets, create_ticket, create_ticket_with, delete_ticket,
    find_all_tickets,
    find_ticket_by_id, prepare_update, restrict_change, update_ticket, update_ticket_at,
};
use tickify_api::controllers::user::add_user;
use tickify_api::database::repositories::ticket_repository::{
    store_failure, StoreReply, TicketRepositoryImpl, TicketStage, TicketStep, TicketUpdate,
};
use tickify_api::database::tickets::TicketColumn;
use tickify_api::database::AppState;
use tickify_api::errors::api_error::ApiError;
use tickify_api::models::ticket::{
    CreateTicketPayload, Ticket, TicketStatus, UpdateTicketPayload,
};
use tickify_api::models::user::{CreateUserPayload, Role, Status, User};
use tickify_api::models::{DeletePayload, Id, Timestamp};

fn account(state: &mut AppState, username: &str, role: Role, status: Status) -> User {
    let id = add_user(
        state,
        &CreateUserPayload {
            username: username.to_string(),
            email: None,
            password: "correct horse".to_string(),
            first_name: None,
            last_name: None,
            role: Some(role),
            status: Some(status),
        },
    )
    .unwrap();
    state
        .db
        .users
        .iter()
        .find(|user| user.id == id)
        .unwrap()
        .clone()
}

fn request(title: &str, requester: Option<&str>) -> CreateTicketPayload {
    CreateTicketPayload {
        title: title.to_string(),
        description: "The printer on floor 2 jams on every print job".to_string(),
        requester: requester.map(String::from),
    }
}

fn change(id: Id) -> UpdateTicketPayload {
    UpdateTicketPayload {
        id,
        title: None,
        description: None,
        requester: None,
        status: None,
        closed_by: None,
        solution: None,
    }
}

fn steps(payload: &UpdateTicketPayload, previous: Option<TicketStatus>, now: Timestamp) -> Vec<TicketStep> {
    let mut taken = Vec::new();
    let mut state = TicketUpdate::new();
    let mut reply = StoreReply::Ready;
    loop {
        let (next, step) = state.step(reply, payload, now);
        state = next;
        reply = match &step {
            TicketStep::Probe => StoreReply::Found(true),
            TicketStep::Write(_) => StoreReply::Written,
            TicketStep::ReadStatus => StoreReply::Status(previous),
            TicketStep::Done(_)
            | TicketStep::NothingToDo
            | TicketStep::NotFound
            | TicketStep::Failed => {
                taken.push(step);
                return taken;
            }
        };
        taken.push(step);
    }
}

#[test]
fn a_change_is_carried_out_field_by_field() {
    let now = Timestamp { micros: 42 };
    let id = Id { value: 9 };
    let payload = UpdateTicketPayload {
        id,
        title: Some("New title".to_string()),
        description: Some("A new description of it".to_string()),
        requester: Some(Id { value: 3 }),
        status: Some(TicketStatus::InProgress),
        closed_by: Some(Id { value: 4 }),
        solution: Some("Replaced the roller".to_string()),
    };
    assert_eq!(
        steps(&payload, Some(TicketStatus::Open), now),
        vec![
            TicketStep::Probe,
            TicketStep::Write(TicketColumn::Title("New title".to_string())),
            TicketStep::Write(TicketColumn::Description("A new description of it".to_string())),
            TicketStep::Write(TicketColumn::Requester(Id { value: 3 })),
            TicketStep::ReadStatus,
            TicketStep::Write(TicketColumn::Status(TicketStatus::InProgress)),
            TicketStep::Write(TicketColumn::ClosedBy(Id { value: 4 })),
            TicketStep::Write(TicketColumn::Solution("Replaced the roller".to_string())),
            TicketStep::Write(TicketColumn::UpdatedAt(now)),
            TicketStep::Done(id),
        ]
    );
}

#[test]
fn closing_writes_the_time_of_closing() {
    let now = Timestamp { micros: 42 };
    let id = Id { value: 9 };
    let mut payload = change(id);
    payload.status = Some(TicketStatus::Closed);
    let closing = vec![
        TicketStep::Probe,
        TicketStep::ReadStatus,
        TicketStep::Write(TicketColumn::Status(TicketStatus::Closed)),
        TicketStep::Write(TicketColumn::ClosedAt(now)),
        TicketStep::Write(TicketColumn::UpdatedAt(now)),
        TicketStep::Done(id),
    ];
    assert_eq!(steps(&payload, Some(TicketStatus::Open), now), closing);
    // also when the ticket was closed or cancelled before
    assert_eq!(steps(&payload, Some(TicketStatus::Closed), now), closing);
    assert_eq!(steps(&payload, Some(TicketStatus::Cancelled), now), closing);
    // but not when the ticket has gone since it was found
    assert_eq!(
        steps(&payload, None, now),
        vec![
            TicketStep::Probe,
            TicketStep::ReadStatus,
            TicketStep::Write(TicketColumn::Status(TicketStatus::Closed)),
            TicketStep::Write(TicketColumn::UpdatedAt(now)),
            TicketStep::Done(id),
        ]
    );
    payload.status = Some(TicketStatus::Cancelled);
    assert_eq!(steps(&payload, Some(TicketStatus::Paused), now).len(), 6);
    payload.status = Some(TicketStatus::Reopened);
    assert_eq!(
        steps(&payload, Some(TicketStatus::Closed), now),
        vec![
            TicketStep::Probe,
            TicketStep::ReadStatus,
            TicketStep::Write(TicketColumn::Status(TicketStatus::Reopened)),
            TicketStep::Write(TicketColumn::UpdatedAt(now)),
            TicketStep::Done(id),
        ]
    );
}

#[test]
fn an_empty_change_asks_only_whether_the_ticket_is_there() {
    let payload = change(Id { value: 9 });
    assert_eq!(
        steps(&payload, Some(TicketStatus::Open), Timestamp { micros: 1 }),
        vec![TicketStep::Probe, TicketStep::NothingToDo]
    );
    let now = Timestamp { micros: 1 };
    let (state, step) = TicketUpdate::new().step(StoreReply::Ready, &payload, now);
    assert_eq!(step, TicketStep::Probe);
    assert_eq!(state.stage, TicketStage::Title);
    let (state, step) = state.step(StoreReply::Found(true), &payload, now);
    assert_eq!(step, TicketStep::NothingToDo);
    assert_eq!(state.stage, TicketStage::Unchanged);
    assert!(!state.updated);
    // a change that has ended gives its answer again
    let (state, step) = state.step(StoreReply::Written, &payload, now);
    assert_eq!(step, TicketStep::NothingToDo);
    assert_eq!(state.stage, TicketStage::Unchanged);
}

#[test]
fn a_change_of_a_missing_ticket_ends_at_once() {
    let now = Timestamp { micros: 1 };
    let mut payload = change(Id { value: 9 });
    payload.title = Some("New title".to_string());
    let (state, step) = TicketUpdate::new().step(StoreReply::Ready, &payload, now);
    assert_eq!(step, TicketStep::Probe);
    let (state, step) = state.step(StoreReply::Found(false), &payload, now);
    assert_eq!(step, TicketStep::NotFound);
    assert_eq!(state.stage, TicketStage::Missing);
    let (_, step) = state.step(StoreReply::Written, &payload, now);
    assert_eq!(step, TicketStep::NotFound);
    // an empty change of a missing ticket is not found, too
    let (state, _) = TicketUpdate::new().step(StoreReply::Ready, &change(Id { value: 9 }), now);
    let (_, step) = state.step(StoreReply::Found(false), &change(Id { value: 9 }), now);
    assert_eq!(step, TicketStep::NotFound);
}

#[test]
fn a_statement_that_fails_ends_the_change() {
    let now = Timestamp { micros: 1 };
    let mut payload = change(Id { value: 9 });
    payload.title = Some("New title".to_string());
    payload.description = Some("A new description of it".to_string());
    payload.solution = Some("Replaced the roller".to_string());
    let (state, _) = TicketUpdate::new().step(StoreReply::Ready, &payload, now);
    let (state, step) = state.step(StoreReply::Found(true), &payload, now);
    assert_eq!(step, TicketStep::Write(TicketColumn::Title("New title".to_string())));
    let (state, step) = state.step(StoreReply::Written, &payload, now);
    assert_eq!(
        step,
        TicketStep::Write(TicketColumn::Description("A new description of it".to_string()))
    );
    // the write of the description fails: nothing more is written
    let (state, step) = state.step(StoreReply::Failed, &payload, now);
    assert_eq!(step, TicketStep::Failed);
    assert_eq!(state.stage, TicketStage::Failed);
    let (state, step) = state.step(StoreReply::Written, &payload, now);
    assert_eq!(step, TicketStep::Failed);
    assert_eq!(state.stage, TicketStage::Failed);
    // a probe or a read that fails ends the change as well
    let (state, _) = TicketUpdate::new().step(StoreReply::Ready, &payload, now);
    assert_eq!(state.step(StoreReply::Failed, &payload, now).1, TicketStep::Failed);
    assert_eq!(
        store_failure("connection reset".to_string()),
        ApiError::DatabaseError("connection reset".to_string())
    );
}

#[test]
fn an_empty_change_is_not_modified_and_writes_nothing() {
    let mut state = AppState::new();
    let admin = account(&mut state, "root", Role::Admin, Status::Active);
    let id = create_ticket(&mut state, &admin, request("Printer broken", None)).unwrap();
    let before = state.clone();
    assert!(matches!(
        TicketRepositoryImpl::update(&mut state, &change(id)),
        Err(ApiError::NotModified)
    ));
    assert_eq!(state, before);
    assert!(matches!(
        update_ticket(&mut state, &admin, change(id)),
        Err(ApiError::NotModified)
    ));
    assert_eq!(state, before);
}

#[test]
fn a_change_overwrites_what_it_names_and_keeps_the_rest() {
    let mut state = AppState::new();
    let admin = account(&mut state, "root", Role::Admin, Status::Active);
    let first = create_ticket(&mut state, &admin, request("Printer broken", None)).unwrap();
    let second = create_ticket(&mut state, &admin, request("Screen flickers", None)).unwrap();
    let before = state.clone();
    let mut payload = change(first);
    payload.title = Some("Printer on fire".to_string());
    payload.solution = Some("Use the extinguisher".to_string());
    let now = Timestamp { micros: 1_700_000_000_000_000 };
    assert_eq!(update_ticket_at(&mut state, &admin, payload, now).unwrap(), first);
    let changed = state.db.tickets.iter().find(|t| t.id == first).unwrap();
    let untouched = before.db.tickets.iter().find(|t| t.id == first).unwrap();
    assert_eq!(
        *changed,
        Ticket {
            title: "Printer on fire".to_string(),
            solution: Some("Use the extinguisher".to_string()),
            updated_at: now,
            ..untouched.clone()
        }
    );
    assert_eq!(changed.closed_at, None);
    assert_eq!(changed.status, TicketStatus::Open);
    assert_eq!(
        state.db.tickets.iter().find(|t| t.id == second),
        before.db.tickets.iter().find(|t| t.id == second)
    );
    assert_eq!(state.db.users, before.db.users);
}

#[test]
fn an_explicit_empty_text_overwrites() {
    let mut state = AppState::new();
    let admin = account(&mut state, "root", Role::Admin, Status::Active);
    let id = create_ticket(&mut state, &admin, request("Printer broken", None)).unwrap();
    let mut payload = change(id);
    payload.title = Some(String::new());
    // the repository writes what it is given; the rules are the endpoint's
    assert_eq!(TicketRepositoryImpl::update(&mut state, &payload).unwrap(), id);
    assert_eq!(state.db.tickets[0].title, "");
    assert!(matches!(
        update_ticket(&mut state, &admin, payload),
        Err(ApiError::ValidationError(_))
    ));
}

#[test]
fn a_caller_without_privilege_changes_title_and_description_only() {
    let mut state = AppState::new();
    let admin = account(&mut state, "root", Role::Admin, Status::Active);
    let alice = account(&mut state, "alice", Role::User, Status::Active);
    let id = create_ticket(&mut state, &alice, request("Printer broken", None)).unwrap();
    let full = UpdateTicketPayload {
        id,
        title: Some("Printer jams".to_string()),
        description: None,
        requester: Some(admin.id),
        status: Some(TicketStatus::Closed),
        closed_by: Some(alice.id),
        solution: Some("Closed it myself".to_string()),
    };
    assert_eq!(
        restrict_change(&alice, full.clone()),
        UpdateTicketPayload {
            id,
            title: Some("Printer jams".to_string()),
            description: None,
            requester: None,
            status: None,
            closed_by: None,
            solution: None,
        }
    );
    assert_eq!(restrict_change(&admin, full.clone()), full);
    update_ticket(&mut state, &alice, full.clone()).unwrap();
    let ticket = &state.db.tickets[0];
    assert_eq!(ticket.title, "Printer jams");
    assert_eq!(ticket.status, TicketStatus::Open);
    assert_eq!(ticket.requester, alice.id);
    assert_eq!(ticket.closed_by, None);
    assert_eq!(ticket.solution, None);
    assert_eq!(ticket.closed_at, None);
    // stripped down to nothing, the change is a change of nothing
    let mut only_status = change(id);
    only_status.status = Some(TicketStatus::Closed);
    assert!(matches!(
        update_ticket(&mut state, &alice, only_status.clone()),
        Err(ApiError::NotModified)
    ));
    update_ticket(&mut state, &admin, only_status).unwrap();
    assert_eq!(state.db.tickets[0].status, TicketStatus::Closed);
    // the rules are applied to what is left
    let mut bad_solution = change(id);
    bad_solution.title = Some("A fine title".to_string());
    bad_solution.solution = Some("short".to_string());
    assert!(prepare_update(&alice, bad_solution.clone()).is_ok());
    assert!(matches!(
        prepare_update(&admin, bad_solution),
        Err(ApiError::ValidationError(_))
    ));
}

#[test]
fn a_caller_without_privilege_is_the_requester() {
    let mut state = AppState::new();
    let admin = account(&mut state, "root", Role::Admin, Status::Active);
    let moderator = account(&mut state, "mod", Role::Moderator, Status::Active);
    let alice = account(&mut state, "alice", Role::User, Status::Active);
    let bob = account(&mut state, "bob", Role::User, Status::Active);
    assert_eq!(
        assign_requester(&alice, request("Printer broken", Some("bob"))).requester.as_deref(),
        Some("alice")
    );
    assert_eq!(
        assign_requester(&alice, request("Printer broken", None)).requester.as_deref(),
        Some("alice")
    );
    assert_eq!(
        assign_requester(&admin, request("Printer broken", Some("bob"))).requester.as_deref(),
        Some("bob")
    );
    assert_eq!(
        assign_requester(&moderator, request("Printer broken", None)).requester.as_deref(),
        Some("mod")
    );
    let by_alice = create_ticket(&mut state, &alice, request("Printer broken", Some("bob"))).unwrap();
    let by_admin = create_ticket(&mut state, &admin, request("Screen flickers", Some("bob"))).unwrap();
    let by_moderator = create_ticket(&mut state, &moderator, request("Mouse is dead", None)).unwrap();
    let requester = |state: &AppState, id: Id| state.db.tickets.iter().find(|t| t.id == id).unwrap().requester;
    assert_eq!(requester(&state, by_alice), alice.id);
    assert_eq!(requester(&state, by_admin), bob.id);
    assert_eq!(requester(&state, by_moderator), moderator.id);
}

#[test]
fn a_created_ticket_is_found_as_it_was_asked_for() {
    let mut state = AppState::new();
    let admin = account(&mut state, "root", Role::Admin, Status::Active);
    let alice = account(&mut state, "alice", Role::User, Status::Active);
    let id = create_ticket(&mut state, &alice, request("Printer broken", None)).unwrap();
    let found = find_ticket_by_id(&state, &admin, id).unwrap();
    assert_eq!(found.id, id);
    assert_eq!(found.title, "Printer broken");
    assert_eq!(found.description, "The printer on floor 2 jams on every print job");
    assert_eq!(found.requester.id, alice.id);
    assert_eq!(found.requester.username, "alice");
    assert_eq!(found.status, TicketStatus::Open);
    assert_eq!(found.closed_by, None);
    assert_eq!(found.solution, None);
    assert_eq!(found.closed_at, None);
    assert_eq!(count_tickets(&state, &admin).unwrap(), 1);
    assert_eq!(find_all_tickets(&state, &admin).unwrap(), vec![found]);
}

#[test]
fn a_ticket_for_an_unknown_requester_fails_in_the_store() {
    let mut state = AppState::new();
    let admin = account(&mut state, "root", Role::Admin, Status::Active);
    let before = state.clone();
    assert!(matches!(
        create_ticket(&mut state, &admin, request("Printer broken", Some("nobody"))),
        Err(ApiError::DatabaseError(_))
    ));
    assert_eq!(state, before);
    assert!(matches!(
        TicketRepositoryImpl::create(&mut state, &request("Printer broken", None)),
        Err(ApiError::DatabaseError(_))
    ));
    assert_eq!(state, before);
}

#[test]
fn tickets_are_kept_for_active_callers() {
    let mut state = AppState::new();
    let admin = account(&mut state, "root", Role::Admin, Status::Active);
    let idle = account(&mut state, "idle", Role::Admin, Status::Inactive);
    let alice = account(&mut state, "alice", Role::User, Status::Active);
    let id = create_ticket(&mut state, &admin, request("Printer broken", None)).unwrap();
    let before = state.clone();
    assert!(matches!(
        create_ticket(&mut state, &idle, request("Printer broken", None)),
        Err(ApiError::Unauthorized)
    ));
    let mut payload = change(id);
    payload.title = Some("Another title".to_string());
    assert!(matches!(
        update_ticket(&mut state, &idle, payload),
        Err(ApiError::Unauthorized)
    ));
    assert!(matches!(
        delete_ticket(&mut state, &idle, DeletePayload { id }),
        Err(ApiError::Unauthorized)
    ));
    assert!(matches!(
        delete_ticket(&mut state, &alice, DeletePayload { id }),
        Err(ApiError::Unauthorized)
    ));
    assert!(matches!(count_tickets(&state, &alice), Err(ApiError::Unauthorized)));
    assert!(matches!(count_tickets(&state, &idle), Err(ApiError::Unauthorized)));
    assert!(matches!(find_all_tickets(&state, &alice), Err(ApiError::Unauthorized)));
    assert!(matches!(
        find_ticket_by_id(&state, &alice, id),
        Err(ApiError::Unauthorized)
    ));
    assert_eq!(state, before);
}

#[test]
fn a_ticket_that_is_not_there_is_not_found() {
    let mut state = AppState::new();
    let admin = account(&mut state, "root", Role::Admin, Status::Active);
    let id = create_ticket(&mut state, &admin, request("Printer broken", None)).unwrap();
    let missing = Id { value: id.value ^ 1 };
    let before = state.clone();
    assert!(matches!(
        find_ticket_by_id(&state, &admin, missing),
        Err(ApiError::NotFound)
    ));
    let mut payload = change(missing);
    payload.title = Some("Another title".to_string());
    assert!(matches!(
        update_ticket(&mut state, &admin, payload),
        Err(ApiError::NotFound)
    ));
    // an empty change of what is not there is not found, too
    assert!(matches!(
        update_ticket(&mut state, &admin, change(missing)),
        Err(ApiError::NotFound)
    ));
    assert!(matches!(
        delete_ticket(&mut state, &admin, DeletePayload { id: missing }),
        Err(ApiError::NotFound)
    ));
    assert_eq!(state, before);
    // the repository looks for the ticket before it writes anything
    let mut payload = change(missing);
    payload.title = Some("Another title".to_string());
    assert_eq!(
        TicketRepositoryImpl::update(&mut state, &payload),
        Err(ApiError::NotFound)
    );
    assert_eq!(
        TicketRepositoryImpl::update(&mut state, &change(missing)),
        Err(ApiError::NotFound)
    );
    assert_eq!(state, before);
    // the repository itself deletes what is not there without complaint
    assert!(TicketRepositoryImpl::delete(&mut state, &DeletePayload { id: missing }).is_ok());
    assert_eq!(state, before);
    assert!(delete_ticket(&mut state, &admin, DeletePayload { id }).is_ok());
    assert!(state.db.tickets.is_empty());
    assert!(matches!(
        delete_ticket(&mut state, &admin, DeletePayload { id }),
        Err(ApiError::NotFound)
    ));
}

#[test]
fn a_ticket_of_a_deleted_requester_is_not_shown() {
    let mut state = AppState::new();
    let admin = account(&mut state, "root", Role::Admin, Status::Active);
    let alice = account(&mut state, "alice", Role::User, Status::Active);
    let id = create_ticket(&mut state, &alice, request("Printer broken", None)).unwrap();
    let mut payload = change(id);
    payload.closed_by = Some(Id { value: 12345 });
    update_ticket(&mut state, &admin, payload).unwrap();
    // a closer that is no account is left out
    assert_eq!(find_ticket_by_id(&state, &admin, id).unwrap().closed_by, None);
    state.db.delete_user(alice.id);
    assert!(matches!(
        find_ticket_by_id(&state, &admin, id),
        Err(ApiError::NotFound)
    ));
    assert!(find_all_tickets(&state, &admin).unwrap().is_empty());
    assert_eq!(count_tickets(&state, &admin).unwrap(), 1);
}

#[test]
fn a_new_ticket_is_open() {
    let ticket = Ticket::new("Printer broken", "It jams on every job", Id { value: 5 });
    assert_eq!(ticket.title, "Printer broken");
    assert_eq!(ticket.description, "It jams on every job");
    assert_eq!(ticket.requester, Id { value: 5 });
    assert_eq!(ticket.status, TicketStatus::Open);
    assert_eq!(ticket.closed_by, None);
    assert_eq!(ticket.solution, None);
    assert_eq!(ticket.closed_at, None);
    assert!(ticket.created_at.micros > 1_600_000_000_000_000);
    let later = Ticket::new("Printer broken", "It jams on every job", Id { value: 5 });
    assert_ne!(ticket.id, later.id);
    // identifiers begin with the time, so the later one sorts after
    assert!(ticket.id.value >> 80 <= later.id.value >> 80);
}

#[test]
fn statuses_have_names() {
    assert_eq!(TicketStatus::Open.to_string(), "Open");
    assert_eq!(TicketStatus::InProgress.to_string(), "InProgress");
    assert_eq!(TicketStatus::Closed.to_string(), "Closed");
    assert_eq!(TicketStatus::Reopened.to_string(), "Reopened");
    assert_eq!(TicketStatus::Paused.to_string(), "Paused");
    assert_eq!(TicketStatus::Cancelled.to_string(), "Cancelled");
    assert!(TicketStatus::Closed.is_terminal());
    assert!(TicketStatus::Cancelled.is_terminal());
    assert!(!TicketStatus::Open.is_terminal());
    assert!(!TicketStatus::Reopened.is_terminal());
}

#[test]
fn the_time_of_closing_stays_until_the_ticket_is_closed_again() {
    let mut state = AppState::new();
    let admin = account(&mut state, "root", Role::Admin, Status::Active);
    let id = create_ticket(&mut state, &admin, request("Printer broken", None)).unwrap();
    let first = Timestamp { micros: 1_000 };
    let second = Timestamp { micros: 2_000 };
    let third = Timestamp { micros: 3_000 };
    let mut closing = change(id);
    closing.status = Some(TicketStatus::Closed);
    update_ticket_at(&mut state, &admin, closing.clone(), first).unwrap();
    assert_eq!(state.db.tickets[0].closed_at, Some(first));
    let mut reopening = change(id);
    reopening.status = Some(TicketStatus::Reopened);
    update_ticket_at(&mut state, &admin, reopening, second).unwrap();
    assert_eq!(state.db.tickets[0].status, TicketStatus::Reopened);
    assert_eq!(state.db.tickets[0].closed_at, Some(first));
    assert_eq!(state.db.tickets[0].updated_at, second);
    let mut cancelling = change(id);
    cancelling.status = Some(TicketStatus::Cancelled);
    update_ticket_at(&mut state, &admin, cancelling, third).unwrap();
    assert_eq!(state.db.tickets[0].closed_at, Some(third));
    // closing what is closed stamps the time again
    update_ticket_at(&mut state, &admin, closing, Timestamp { micros: 4_000 }).unwrap();
    assert_eq!(state.db.tickets[0].closed_at, Some(Timestamp { micros: 4_000 }));
}

#[test]
fn a_ticket_is_opened_under_the_identifier_that_was_drawn() {
    let mut state = AppState::new();
    let admin = account(&mut state, "root", Role::Admin, Status::Active);
    let alice = account(&mut state, "alice", Role::User, Status::Active);
    let idle = account(&mut state, "idle", Role::User, Status::Inactive);
    let now = Timestamp { micros: 5_000 };
    let id = Id { value: 77 };
    assert_eq!(
        create_ticket_with(&mut state, &alice, request("Printer broken", Some("root")), id, now),
        Ok(id)
    );
    assert_eq!(
        state.db.tickets,
        vec![Ticket {
            id,
            title: "Printer broken".to_string(),
            description: "The printer on floor 2 jams on every print job".to_string(),
            requester: alice.id,
            status: TicketStatus::Open,
            closed_by: None,
            solution: None,
            created_at: now,
            updated_at: now,
            closed_at: None,
        }]
    );
    let before = state.clone();
    // the identifier is taken: the store refuses
    assert!(matches!(
        create_ticket_with(&mut state, &admin, request("Screen flickers", None), id, now),
        Err(ApiError::DatabaseError(_))
    ));
    assert!(matches!(
        create_ticket_with(&mut state, &idle, request("Screen flickers", None), Id { value: 78 }, now),
        Err(ApiError::Unauthorized)
    ));
    assert!(matches!(
        create_ticket_with(&mut state, &admin, request("Sc", None), Id { value: 78 }, now),
        Err(ApiError::ValidationError(_))
    ));
    assert!(matches!(
        create_ticket_with(&mut state, &admin, request("Screen flickers", Some("nobody")), Id { value: 78 }, now),
        Err(ApiError::DatabaseError(_))
    ));
    assert_eq!(state, before);
    assert_eq!(
        create_ticket_with(&mut state, &admin, request("Screen flickers", Some("alice")), Id { value: 78 }, now),
        Ok(Id { value: 78 })
    );
    assert_eq!(state.db.tickets[1].requester, alice.id);
    assert_eq!(
        TicketRepositoryImpl::create_with(&mut state, &request("Mouse is dead", Some("root")), Id { value: 79 }, now)
            .unwrap(),
        Ticket::new_at("Mouse is dead", "The printer on floor 2 jams on every print job", admin.id, Id { value: 79 }, now)
    );
}

#[test]
fn a_failure_partway_keeps_what_was_written_before() {
    let mut state = AppState::new();
    let admin = account(&mut state, "root", Role::Admin, Status::Active);
    let id = create_ticket(&mut state, &admin, request("Printer broken", None)).unwrap();
    let start = state.clone();
    let untouched = start.db.tickets[0].clone();
    let payload = UpdateTicketPayload {
        id,
        title: Some("Printer on fire".to_string()),
        description: Some("Flames come out of the paper tray".to_string()),
        requester: None,
        status: Some(TicketStatus::Closed),
        closed_by: Some(admin.id),
        solution: Some("Use the extinguisher".to_string()),
    };
    let now = Timestamp { micros: 1_700_000_000_000_000 };
    // the write of the status fails: title and description are written, the
    // rest is not, and the time of the change is not stamped
    assert!(matches!(
        TicketRepositoryImpl::update_until(&mut state, &payload, now, Some(TicketStage::Status)),
        Err(ApiError::DatabaseError(_))
    ));
    assert_eq!(
        state.db.tickets[0],
        Ticket {
            title: "Printer on fire".to_string(),
            description: "Flames come out of the paper tray".to_string(),
            ..untouched.clone()
        }
    );
    // the last write fails: everything is written but the time of the change
    let mut state = start.clone();
    assert!(matches!(
        TicketRepositoryImpl::update_until(&mut state, &payload, now, Some(TicketStage::UpdatedAt)),
        Err(ApiError::DatabaseError(_))
    ));
    assert_eq!(
        state.db.tickets[0],
        Ticket {
            title: "Printer on fire".to_string(),
            description: "Flames come out of the paper tray".to_string(),
            status: TicketStatus::Closed,
            closed_at: Some(now),
            closed_by: Some(admin.id),
            solution: Some("Use the extinguisher".to_string()),
            ..untouched.clone()
        }
    );
    // the probe fails: nothing is written
    let mut state = start.clone();
    assert!(matches!(
        TicketRepositoryImpl::update_until(&mut state, &payload, now, Some(TicketStage::Exists)),
        Err(ApiError::DatabaseError(_))
    ));
    assert_eq!(state, start);
    // a step that the change does not come to cannot fail it
    let mut state = start.clone();
    assert_eq!(
        TicketRepositoryImpl::update_until(&mut state, &payload, now, Some(TicketStage::Requester)),
        Ok(id)
    );
    assert_eq!(state.db.tickets[0].updated_at, now);
    let mut other = start.clone();
    assert_eq!(TicketRepositoryImpl::update_until(&mut other, &payload, now, None), Ok(id));
    assert_eq!(other, state);
}
