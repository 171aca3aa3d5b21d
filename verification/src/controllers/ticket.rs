//! The endpoints on tickets.

use crate::database::{
    has_ticket, lemma_user_at, row_count, shown_all, shown_with_id, ticket_views, user_named,
    AppState, TablesData,
};
use crate::database::repositories::ticket_repository::{
    carried_out, changed_ticket, changed_tickets, lemma_stored_ticket_is_found,
    TicketRepositoryImpl,
};
use crate::database::tickets::without_ticket;
use crate::errors::api_error::ApiError;
use crate::models::auth::access::{may_manage, require_active, require_manager};
use crate::models::{text_of, DeletePayload, Id, Timestamp};
use crate::models::ticket::{
    new_ticket, CreateTicketPayload, TicketData, TicketPublic, TicketStatus, UpdateTicketPayload,
};
use crate::models::user::{privileged, Role, Status, User};
use crate::validations::existence::ticket_exists;
use vstd::prelude::*;

verus! {

/// The username under which a ticket is opened. A caller without privilege
/// opens tickets for themselves, whatever the request says; a privileged
/// caller may name the requester, and is the requester if the request names
/// none.
pub open spec fn requester_for(current_user: User, payload: CreateTicketPayload) -> Seq<char> {
    if !privileged(current_user.role) {
        current_user.username@
    } else {
        match payload.requester {
            Some(requester) => requester@,
            None => current_user.username@,
        }
    }
}

/// The request to open a ticket, with the requester settled.
pub fn assign_requester(current_user: &User, payload: CreateTicketPayload) -> (settled:
    CreateTicketPayload)
    ensures
        settled.title == payload.title,
        settled.description == payload.description,
        text_of(settled.requester) == Some(requester_for(*current_user, payload)),
{
    if current_user.role != Role::Admin && current_user.role
        != Role::Moderator {
        CreateTicketPayload {
            title: payload.title,
            description: payload.description,
            requester: Some(current_user.username.clone()),
        }
    } else {
        if payload.requester.is_some() {
            CreateTicketPayload {
                title: payload.title,
                description: payload.description,
                requester: payload.requester,
            }
        } else {
            CreateTicketPayload {
                title: payload.title,
                description: payload.description,
                requester: Some(current_user.username.clone()),
            }
        }
    }
}

/// The change that a caller may make: a caller without privilege changes
/// title and description only, the other fields of the request are dropped.
pub open spec fn permitted_change(
    current_user: User,
    payload: UpdateTicketPayload,
) -> UpdateTicketPayload {
    if !privileged(current_user.role) {
        UpdateTicketPayload {
            id: payload.id,
            title: payload.title,
            description: payload.description,
            requester: None,
            status: None,
            closed_by: None,
            solution: None,
        }
    } else {
        payload
    }
}

/// Drops from a change what the caller may not change.
pub fn restrict_change(current_user: &User, payload: UpdateTicketPayload) -> (permitted:
    UpdateTicketPayload)
    ensures
        permitted == permitted_change(*current_user, payload),
{
    if current_user.role != Role::Admin && current_user.role
        != Role::Moderator {
        UpdateTicketPayload {
            id: payload.id,
            title: payload.title,
            description: payload.description,
            status: None,
            requester: None,
            closed_by: None,
            solution: None,
        }
    } else {
        UpdateTicketPayload {
            id: payload.id,
            title: payload.title,
            description: payload.description,
            status: payload.status,
            requester: payload.requester,
            closed_by: payload.closed_by,
            solution: payload.solution,
        }
    }
}

/// What is stored for a request to open a ticket: the caller must be active,
/// the requester is settled, and the rules on the fields must hold.
pub fn prepare_create(current_user: &User, payload: CreateTicketPayload) -> (prepared: Result<
    CreateTicketPayload,
    ApiError,
>)
    ensures
        current_user.status != Status::Active ==> prepared matches Err(ApiError::Unauthorized),
        current_user.status == Status::Active && payload.broken_rules().len() > 0 ==> (
        prepared matches Err(ApiError::ValidationError(errors)) && errors@
            == payload.broken_rules()),
        current_user.status == Status::Active && payload.broken_rules().len() == 0 ==> (
        prepared matches Ok(settled) && settled.title == payload.title && settled.description
            == payload.description && text_of(settled.requester) == Some(
            requester_for(*current_user, payload),
        )),
{
    match require_active(current_user) {
        Ok(()) => {},
        Err(error) => {
            return Err(error);
        },
    }
    let settled = assign_requester(current_user, payload);
    match settled.validate() {
        Ok(()) => Ok(settled),
        Err(errors) => Err(ApiError::ValidationError(errors)),
    }
}

/// What is written for a request to change a ticket: the caller must be
/// active, fields that the caller may not change are dropped, and the rules
/// on the remaining fields must hold.
pub fn prepare_update(current_user: &User, payload: UpdateTicketPayload) -> (prepared: Result<
    UpdateTicketPayload,
    ApiError,
>)
    ensures
        current_user.status != Status::Active ==> prepared matches Err(ApiError::Unauthorized),
        current_user.status == Status::Active && permitted_change(
            *current_user,
            payload,
        ).broken_rules().len() > 0 ==> (prepared matches Err(ApiError::ValidationError(errors))
            && errors@ == permitted_change(*current_user, payload).broken_rules()),
        current_user.status == Status::Active && permitted_change(
            *current_user,
            payload,
        ).broken_rules().len() == 0 ==> prepared == Ok::<UpdateTicketPayload, ApiError>(
            permitted_change(*current_user, payload),
        ),
{
    match require_active(current_user) {
        Ok(()) => {},
        Err(error) => {
            return Err(error);
        },
    }
    let permitted = restrict_change(current_user, payload);
    match permitted.validate() {
        Ok(()) => Ok(permitted),
        Err(errors) => Err(ApiError::ValidationError(errors)),
    }
}

/// `GET /tickets/count`: how many tickets there are.
pub fn count_tickets(state: &AppState, current_user: &User) -> (count: Result<i64, ApiError>)
    ensures
        may_manage(*current_user) ==> count == Ok::<i64, ApiError>(
            row_count(state.db@.tickets.len()) as i64,
        ),
        !may_manage(*current_user) ==> count matches Err(ApiError::Unauthorized),
{
    match require_manager(current_user) {
        Ok(()) => TicketRepositoryImpl::count(state),
        Err(error) => Err(error),
    }
}

/// `GET /tickets`: all tickets.
pub fn find_all_tickets(state: &AppState, current_user: &User) -> (tickets: Result<
    Vec<TicketPublic>,
    ApiError,
>)
    requires
        state.db@.wf(),
    ensures
        may_manage(*current_user) ==> (tickets matches Ok(rows) && ticket_views(rows@)
            == shown_all(state.db@.users, state.db@.tickets)),
        !may_manage(*current_user) ==> tickets matches Err(ApiError::Unauthorized),
{
    match require_manager(current_user) {
        Ok(()) => TicketRepositoryImpl::find_all(state),
        Err(error) => Err(error),
    }
}

/// `GET /tickets/{id}`: one ticket; `NotFound` if there is none with this
/// identifier.
pub fn find_ticket_by_id(state: &AppState, current_user: &User, id: Id) -> (ticket: Result<
    TicketPublic,
    ApiError,
>)
    requires
        state.db@.wf(),
    ensures
        !may_manage(*current_user) ==> ticket matches Err(ApiError::Unauthorized),
        may_manage(*current_user) ==> (match shown_with_id(state.db@, id) {
            Some(shown) => ticket matches Ok(found) && found@ == shown,
            None => ticket matches Err(ApiError::NotFound),
        }),
{
    match require_manager(current_user) {
        Ok(()) => {},
        Err(error) => {
            return Err(error);
        },
    }
    match TicketRepositoryImpl::find_by_id(state, id) {
        Ok(Some(ticket)) => Ok(ticket),
        Ok(None) => Err(ApiError::NotFound),
        Err(error) => Err(error),
    }
}

/// Whether the tables are as a request to open a ticket leaves them when it
/// is answered with `id`: the caller is active, the request breaks no rule,
/// the requester is an account, and one ticket is added, which has the
/// identifier, the title and the description of the request, belongs to the
/// requester, and is open, neither closed nor solved.
pub open spec fn opened(
    before: TablesData,
    after: TablesData,
    current_user: User,
    payload: CreateTicketPayload,
    id: Id,
) -> bool {
    &&& current_user.status == Status::Active
    &&& payload.broken_rules().len() == 0
    &&& !has_ticket(before.tickets, id)
    &&& user_named(before.users, requester_for(current_user, payload)) matches Some(requester)
    &&& after.users == before.users
    &&& after.tickets.len() == before.tickets.len() + 1
    &&& after.tickets.drop_last() == before.tickets
    &&& after.tickets.last().id == id
    &&& after.tickets.last().title == payload.title@
    &&& after.tickets.last().description == payload.description@
    &&& after.tickets.last().requester == requester.id
    &&& after.tickets.last().status == TicketStatus::Open
    &&& after.tickets.last().closed_by is None
    &&& after.tickets.last().solution is None
    &&& after.tickets.last().closed_at is None
}

/// What a request to open a ticket is answered with, where `id` is the
/// identifier that was drawn for the ticket and `now` the moment. The checks
/// are made in this order, and the first that fails decides: the caller must
/// be active; the request must break no rule; the requester must be an
/// account, and the identifier must be free, or else the store fails. A
/// request that fails stores nothing. Otherwise the ticket is stored and the
/// request is answered with its identifier.
pub open spec fn create_answered(
    tables: TablesData,
    after: TablesData,
    current_user: User,
    payload: CreateTicketPayload,
    id: Id,
    now: Timestamp,
    created: Result<Id, ApiError>,
) -> bool {
    if current_user.status != Status::Active {
        (created matches Err(ApiError::Unauthorized)) && after == tables
    } else if payload.broken_rules().len() > 0 {
        (created matches Err(ApiError::ValidationError(errors)) && errors@
            == payload.broken_rules()) && after == tables
    } else {
        match user_named(tables.users, requester_for(current_user, payload)) {
            None => (created matches Err(ApiError::DatabaseError(_))) && after == tables,
            Some(requester) => if has_ticket(tables.tickets, id) {
                (created matches Err(ApiError::DatabaseError(_))) && after == tables
            } else {
                &&& created == Ok::<Id, ApiError>(id)
                &&& after.users == tables.users
                &&& after.tickets == tables.tickets.push(
                    new_ticket(id, payload.title@, payload.description@, requester.id, now),
                )
            },
        }
    }
}

/// `POST /tickets` with the identifier and the moment given: opens a ticket
/// and answers with its identifier.
pub fn create_ticket_with(
    state: &mut AppState,
    current_user: &User,
    payload: CreateTicketPayload,
    id: Id,
    now: Timestamp,
) -> (created: Result<Id, ApiError>)
    requires
        old(state).db@.wf(),
    ensures
        final(state).db@.wf(),
        create_answered(old(state).db@, final(state).db@, *current_user, payload, id, now, created),
{
    let settled = match prepare_create(current_user, payload) {
        Ok(settled) => settled,
        Err(error) => {
            return Err(error);
        },
    };
    match TicketRepositoryImpl::create_with(state, &settled, id, now) {
        Ok(ticket) => Ok(ticket.id),
        Err(error) => Err(error),
    }
}

/// A request to open a ticket that is answered with an identifier has opened
/// the ticket.
pub proof fn lemma_answered_ticket_is_opened(
    tables: TablesData,
    after: TablesData,
    current_user: User,
    payload: CreateTicketPayload,
    id: Id,
    now: Timestamp,
    created: Result<Id, ApiError>,
)
    requires
        create_answered(tables, after, current_user, payload, id, now, created),
    ensures
        match created {
            Ok(answer) => answer == id && opened(tables, after, current_user, payload, id),
            Err(error) => {
                &&& after == tables
                &&& error is Unauthorized <==> current_user.status != Status::Active
                &&& error is ValidationError <==> current_user.status == Status::Active
                    && payload.broken_rules().len() > 0
                &&& error is Unauthorized || error is ValidationError || error is DatabaseError
            },
        },
{
    if created is Ok {
        let requester = user_named(tables.users, requester_for(current_user, payload)).unwrap();
        let ticket = new_ticket(id, payload.title@, payload.description@, requester.id, now);
        assert(tables.tickets.push(ticket).drop_last() =~= tables.tickets);
        assert(tables.tickets.push(ticket).last() == ticket);
    }
}

/// `POST /tickets`: opens a ticket under a fresh identifier, now, and answers
/// with the identifier. The only failure that a valid request of an active
/// caller can meet is that of the store.
pub fn create_ticket(
    state: &mut AppState,
    current_user: &User,
    payload: CreateTicketPayload,
) -> (created: Result<Id, ApiError>)
    requires
        old(state).db@.wf(),
    ensures
        final(state).db@.wf(),
        final(state).db@.users == old(state).db@.users,
        exists|id: Id, now: Timestamp| #[trigger]
            create_answered(
                old(state).db@,
                final(state).db@,
                *current_user,
                payload,
                id,
                now,
                created,
            ),
        match created {
            Ok(id) => opened(old(state).db@, final(state).db@, *current_user, payload, id),
            Err(error) => {
                &&& final(state).db@ == old(state).db@
                &&& error is Unauthorized <==> current_user.status != Status::Active
                &&& error is ValidationError <==> current_user.status == Status::Active
                    && payload.broken_rules().len() > 0
                &&& error is Unauthorized || error is ValidationError || error is DatabaseError
            },
        },
{
    let id = Id::time_ordered();
    let now = Timestamp::now();
    let ghost request = payload;
    let created = create_ticket_with(state, current_user, payload, id, now);
    proof {
        assert(create_answered(old(state).db@, state.db@, *current_user, request, id, now, created));
        lemma_answered_ticket_is_opened(
            old(state).db@,
            state.db@,
            *current_user,
            request,
            id,
            now,
            created,
        );
    }
    created
}

/// `PUT /tickets` at a given time: changes a ticket and answers with its
/// identifier. A ticket that is not there is `NotFound`; a change that
/// leaves the caller nothing to write is `NotModified`.
pub fn update_ticket_at(
    state: &mut AppState,
    current_user: &User,
    payload: UpdateTicketPayload,
    now: Timestamp,
) -> (updated: Result<Id, ApiError>)
    requires
        old(state).db@.wf(),
    ensures
        final(state).db@.wf(),
        final(state).db@.users == old(state).db@.users,
        update_answered(old(state).db@.tickets, *current_user, payload, updated),
        updated is Err ==> final(state).db@ == old(state).db@,
        updated is Ok ==> final(state).db@.tickets == changed_tickets(
            old(state).db@.tickets,
            permitted_change(*current_user, payload),
            now,
        ),
{
    let permitted = match prepare_update(current_user, payload) {
        Ok(permitted) => permitted,
        Err(error) => {
            return Err(error);
        },
    };
    match ticket_exists(state, permitted.id) {
        Ok(()) => {},
        Err(error) => {
            return Err(error);
        },
    }
    let updated = TicketRepositoryImpl::update_at(state, &permitted, now);
    assert(carried_out(old(state).db@.tickets, state.db@.tickets, permitted, now, updated));
    updated
}

/// What a request to change a ticket is answered with: the checks are made
/// in this order, and the first that fails decides.
pub open spec fn update_answered(
    tickets: Seq<TicketData>,
    current_user: User,
    payload: UpdateTicketPayload,
    updated: Result<Id, ApiError>,
) -> bool {
    let permitted = permitted_change(current_user, payload);
    if current_user.status != Status::Active {
        updated matches Err(ApiError::Unauthorized)
    } else if permitted.broken_rules().len() > 0 {
        updated matches Err(ApiError::ValidationError(errors)) && errors@
            == permitted.broken_rules()
    } else if !has_ticket(tickets, payload.id) {
        updated matches Err(ApiError::NotFound)
    } else if permitted.is_empty() {
        updated matches Err(ApiError::NotModified)
    } else {
        updated == Ok::<Id, ApiError>(payload.id)
    }
}

/// `PUT /tickets`: changes a ticket now and answers with its identifier.
pub fn update_ticket(
    state: &mut AppState,
    current_user: &User,
    payload: UpdateTicketPayload,
) -> (updated: Result<Id, ApiError>)
    requires
        old(state).db@.wf(),
    ensures
        final(state).db@.wf(),
        final(state).db@.users == old(state).db@.users,
        update_answered(old(state).db@.tickets, *current_user, payload, updated),
        updated is Err ==> final(state).db@ == old(state).db@,
        updated is Ok ==> exists|now: Timestamp|
            final(state).db@.tickets == #[trigger] changed_tickets(
                old(state).db@.tickets,
                permitted_change(*current_user, payload),
                now,
            ),
{
    let now = Timestamp::now();
    update_ticket_at(state, current_user, payload, now)
}

/// What a request to delete a ticket is answered with.
pub open spec fn delete_answered(
    tickets: Seq<TicketData>,
    current_user: User,
    id: Id,
    deleted: Result<(), ApiError>,
) -> bool {
    if !may_manage(current_user) {
        deleted matches Err(ApiError::Unauthorized)
    } else if !has_ticket(tickets, id) {
        deleted matches Err(ApiError::NotFound)
    } else {
        deleted is Ok
    }
}

/// `DELETE /tickets`: deletes a ticket. A ticket that is not there is
/// `NotFound`, and nothing is touched.
pub fn delete_ticket(state: &mut AppState, current_user: &User, payload: DeletePayload) -> (deleted:
    Result<(), ApiError>)
    requires
        old(state).db@.wf(),
    ensures
        final(state).db@.wf(),
        final(state).db@.users == old(state).db@.users,
        delete_answered(old(state).db@.tickets, *current_user, payload.id, deleted),
        deleted is Err ==> final(state).db@ == old(state).db@,
        deleted is Ok ==> final(state).db@.tickets == without_ticket(
            old(state).db@.tickets,
            payload.id,
        ) && !has_ticket(final(state).db@.tickets, payload.id),
{
    match require_manager(current_user) {
        Ok(()) => {},
        Err(error) => {
            return Err(error);
        },
    }
    match ticket_exists(state, payload.id) {
        Ok(()) => {},
        Err(error) => {
            return Err(error);
        },
    }
    TicketRepositoryImpl::delete(state, &payload)
}

/// A caller without privilege opens tickets for themselves, whatever the
/// request says; the requester that a privileged caller names is kept.
pub proof fn lemma_requester_is_settled(current_user: User, payload: CreateTicketPayload)
    ensures
        !privileged(current_user.role) ==> requester_for(current_user, payload)
            == current_user.username@,
        privileged(current_user.role) && payload.requester is Some ==> requester_for(
            current_user,
            payload,
        ) == payload.requester.unwrap()@,
        privileged(current_user.role) && payload.requester is None ==> requester_for(
            current_user,
            payload,
        ) == current_user.username@,
{
}

/// A caller without privilege changes nothing but title and description.
pub proof fn lemma_change_is_restricted(
    current_user: User,
    payload: UpdateTicketPayload,
    ticket: TicketData,
    now: Timestamp,
)
    requires
        !privileged(current_user.role),
    ensures
        ({
            let changed = changed_ticket(
                ticket,
                permitted_change(current_user, payload),
                now,
            );
            &&& changed.requester == ticket.requester
            &&& changed.status == ticket.status
            &&& changed.closed_by == ticket.closed_by
            &&& changed.solution == ticket.solution
            &&& changed.closed_at == ticket.closed_at
        }),
{
}

/// A ticket that was opened is found under the identifier that the request
/// was answered with, and is shown as it was asked for: with the title and
/// the description of the request, under the username that the requester was
/// settled to, open, and neither closed nor solved.
pub proof fn lemma_opened_ticket_is_shown(
    before: TablesData,
    after: TablesData,
    current_user: User,
    payload: CreateTicketPayload,
    id: Id,
)
    requires
        before.wf(),
        opened(before, after, current_user, payload, id),
    ensures
        after.wf(),
        shown_with_id(after, id) matches Some(shown) && {
            &&& shown.id == id
            &&& shown.title == payload.title@
            &&& shown.description == payload.description@
            &&& shown.requester.username == requester_for(current_user, payload)
            &&& shown.status == TicketStatus::Open
            &&& shown.closed_by is None
            &&& shown.solution is None
            &&& shown.closed_at is None
        },
{
    let ticket = after.tickets.last();
    assert(after.tickets =~= before.tickets.push(ticket));
    let username = requester_for(current_user, payload);
    let requester = user_named(before.users, username).unwrap();
    let i = choose|i: int|
        0 <= i < before.users.len() && (#[trigger] before.users[i]).username == username;
    assert(requester == before.users[i]);
    lemma_user_at(before.users, i);
    lemma_stored_ticket_is_found(before, ticket, requester);
    assert(after == TablesData { users: before.users, tickets: before.tickets.push(ticket) });
}

} // verus!
