//! Reading, creating, changing and deleting tickets.
//!
//! A change is carried out one statement at a time. [`TicketUpdate`] decides
//! which statement comes next; whoever holds the store runs it and reports
//! back. [`TicketRepositoryImpl`] does so on the tables held in memory.

use crate::database::{
    distinct_ticket_ids, has_ticket, lemma_ticket_at, row_count, shown_all, shown_with_id,
    ticket_view, ticket_views, ticket_with_id, user_named, user_with_id, AppState, TablesData,
};
use crate::database::tickets::{status_with_id, without_ticket, TicketColumn, TicketColumnData};
use crate::errors::api_error::ApiError;
use crate::models::{DeletePayload, Id, Timestamp};
use crate::models::ticket::{
    new_ticket, requester_part, terminal, CreateTicketPayload, Ticket, TicketData, TicketPublic,
    TicketStatus, UpdateTicketPayload,
};
use crate::models::user::UserData;
use vstd::prelude::*;

verus! {

/// The steps of a change, in the order in which they are taken.
#[derive(Clone, Copy, Debug, PartialEq, Eq, Structural)]
pub enum TicketStage {
    /// Asking whether the ticket is there.
    Exists,
    Title,
    Description,
    Requester,
    PreviousStatus,
    Status,
    ClosedAt,
    ClosedBy,
    Solution,
    UpdatedAt,
    /// Everything is written.
    Finished,
    /// The change ended because the ticket is not there.
    Missing,
    /// The change ended because it names no field.
    Unchanged,
    /// The change ended because a statement failed.
    Failed,
}

/// The place of a step in the order.
pub open spec fn stage_rank(stage: TicketStage) -> nat {
    match stage {
        TicketStage::Exists => 0,
        TicketStage::Title => 1,
        TicketStage::Description => 2,
        TicketStage::Requester => 3,
        TicketStage::PreviousStatus => 4,
        TicketStage::Status => 5,
        TicketStage::ClosedAt => 6,
        TicketStage::ClosedBy => 7,
        TicketStage::Solution => 8,
        TicketStage::UpdatedAt => 9,
        TicketStage::Finished => 10,
        TicketStage::Missing => 11,
        TicketStage::Unchanged => 12,
        TicketStage::Failed => 13,
    }
}

/// How far a change has come.
#[derive(Clone, Copy, Debug, PartialEq, Eq, Structural)]
pub struct TicketUpdate {
    /// The next step to consider.
    pub stage: TicketStage,
    /// Whether a field was written so far.
    pub updated: bool,
    /// The status the ticket had before the change, once it was read.
    pub previous: Option<TicketStatus>,
}

/// What the store answered to the last statement.
#[derive(Clone, Copy, Debug, PartialEq, Eq, Structural)]
pub enum StoreReply {
    /// Nothing was asked yet.
    Ready,
    /// The write was made.
    Written,
    /// The status that was read; `None` if no ticket has the identifier.
    Status(Option<TicketStatus>),
    /// Whether a ticket has the identifier.
    Found(bool),
    /// The statement failed.
    Failed,
}

/// What to do next.
#[derive(Clone, Debug, PartialEq, Eq)]
pub enum TicketStep {
    /// Ask the store whether a ticket has the identifier.
    Probe,
    /// Write this column of the ticket.
    Write(TicketColumn),
    /// Read the status of the ticket.
    ReadStatus,
    /// The change is made: answer with the identifier.
    Done(Id),
    /// The change names no field: answer `NotModified`.
    NothingToDo,
    /// No ticket has the identifier: answer `NotFound`.
    NotFound,
    /// The last statement failed: answer `DatabaseError` with what the store
    /// said. What was written before stays written; nothing more is written,
    /// and nothing is tried again.
    Failed,
}

/// What a step holds.
pub enum TicketStepData {
    Probe,
    Write(TicketColumnData),
    ReadStatus,
    Done(Id),
    NothingToDo,
    NotFound,
    Failed,
}

impl View for TicketStep {
    type V = TicketStepData;

    open spec fn view(&self) -> TicketStepData {
        match self {
            TicketStep::Probe => TicketStepData::Probe,
            TicketStep::Write(column) => TicketStepData::Write(column@),
            TicketStep::ReadStatus => TicketStepData::ReadStatus,
            TicketStep::Done(id) => TicketStepData::Done(*id),
            TicketStep::NothingToDo => TicketStepData::NothingToDo,
            TicketStep::NotFound => TicketStepData::NotFound,
            TicketStep::Failed => TicketStepData::Failed,
        }
    }
}

/// Whether the time of closing is written: the new status is terminal, the
/// ticket had a status before, and that status was "not `Closed` or not
/// `Cancelled`". No status is both, so the last condition always holds: the
/// time is written on every move into a terminal status, also from a
/// terminal one.
pub open spec fn stamps_closed_at(
    new_status: Option<TicketStatus>,
    previous: Option<TicketStatus>,
) -> bool {
    &&& new_status matches Some(status) && terminal(status)
    &&& previous matches Some(before) && (before != TicketStatus::Closed || before
        != TicketStatus::Cancelled)
}

/// The state after a step was taken.
pub open spec fn after(
    stage: TicketStage,
    updated: bool,
    previous: Option<TicketStatus>,
) -> TicketUpdate {
    TicketUpdate { stage, updated, previous }
}

/// The next statement from a given step on: steps whose field is absent are
/// passed over. A change that has ended gives its answer again.
pub open spec fn next_from(
    stage: TicketStage,
    updated: bool,
    previous: Option<TicketStatus>,
    payload: UpdateTicketPayload,
    now: Timestamp,
) -> (TicketUpdate, TicketStepData)
    decreases 13 - stage_rank(stage),
{
    match stage {
        TicketStage::Exists => (after(TicketStage::Title, updated, previous), TicketStepData::Probe),
        TicketStage::Title => match payload.title {
            Some(title) => (
                after(TicketStage::Description, true, previous),
                TicketStepData::Write(TicketColumnData::Title(title@)),
            ),
            None => next_from(TicketStage::Description, updated, previous, payload, now),
        },
        TicketStage::Description => match payload.description {
            Some(description) => (
                after(TicketStage::Requester, true, previous),
                TicketStepData::Write(TicketColumnData::Description(description@)),
            ),
            None => next_from(TicketStage::Requester, updated, previous, payload, now),
        },
        TicketStage::Requester => match payload.requester {
            Some(requester) => (
                after(TicketStage::PreviousStatus, true, previous),
                TicketStepData::Write(TicketColumnData::Requester(requester)),
            ),
            None => next_from(TicketStage::PreviousStatus, updated, previous, payload, now),
        },
        TicketStage::PreviousStatus => match payload.status {
            Some(_) => (after(TicketStage::Status, updated, previous), TicketStepData::ReadStatus),
            None => next_from(TicketStage::ClosedBy, updated, previous, payload, now),
        },
        TicketStage::Status => match payload.status {
            Some(status) => (
                after(TicketStage::ClosedAt, true, previous),
                TicketStepData::Write(TicketColumnData::Status(status)),
            ),
            None => next_from(TicketStage::ClosedBy, updated, previous, payload, now),
        },
        TicketStage::ClosedAt => if stamps_closed_at(payload.status, previous) {
            (
                after(TicketStage::ClosedBy, updated, previous),
                TicketStepData::Write(TicketColumnData::ClosedAt(now)),
            )
        } else {
            next_from(TicketStage::ClosedBy, updated, previous, payload, now)
        },
        TicketStage::ClosedBy => match payload.closed_by {
            Some(closed_by) => (
                after(TicketStage::Solution, true, previous),
                TicketStepData::Write(TicketColumnData::ClosedBy(closed_by)),
            ),
            None => next_from(TicketStage::Solution, updated, previous, payload, now),
        },
        TicketStage::Solution => match payload.solution {
            Some(solution) => (
                after(TicketStage::UpdatedAt, true, previous),
                TicketStepData::Write(TicketColumnData::Solution(solution@)),
            ),
            None => next_from(TicketStage::UpdatedAt, updated, previous, payload, now),
        },
        TicketStage::UpdatedAt => if updated {
            (
                after(TicketStage::Finished, updated, previous),
                TicketStepData::Write(TicketColumnData::UpdatedAt(now)),
            )
        } else {
            (after(TicketStage::Unchanged, updated, previous), TicketStepData::NothingToDo)
        },
        TicketStage::Finished => (
            after(TicketStage::Finished, updated, previous),
            TicketStepData::Done(payload.id),
        ),
        TicketStage::Missing => (
            after(TicketStage::Missing, updated, previous),
            TicketStepData::NotFound,
        ),
        TicketStage::Unchanged => (
            after(TicketStage::Unchanged, updated, previous),
            TicketStepData::NothingToDo,
        ),
        TicketStage::Failed => (after(TicketStage::Failed, updated, previous), TicketStepData::Failed),
    }
}

/// The status before the change, as known after a reply: a status that was
/// just read, or else what was known already.
pub open spec fn known_previous(state: TicketUpdate, reply: StoreReply) -> Option<TicketStatus> {
    match reply {
        StoreReply::Status(previous) => previous,
        _ => state.previous,
    }
}

/// The next statement of a change, given how far it has come and what the
/// store answered last. The change begins by asking whether the ticket is
/// there, and ends with `NotFound` if it is not. A statement that failed ends
/// the change at once.
pub open spec fn next_step(
    state: TicketUpdate,
    reply: StoreReply,
    payload: UpdateTicketPayload,
    now: Timestamp,
) -> (TicketUpdate, TicketStepData) {
    match reply {
        StoreReply::Failed => (
            after(TicketStage::Failed, state.updated, state.previous),
            TicketStepData::Failed,
        ),
        StoreReply::Found(false) => (
            after(TicketStage::Missing, state.updated, state.previous),
            TicketStepData::NotFound,
        ),
        _ => next_from(state.stage, state.updated, known_previous(state, reply), payload, now),
    }
}

impl TicketUpdate {
    /// A change of which nothing is done yet.
    pub fn new() -> (state: TicketUpdate)
        ensures
            state == after(TicketStage::Exists, false, None),
    {
        TicketUpdate { stage: TicketStage::Exists, updated: false, previous: None }
    }

    /// Decides the next statement. `now` is the time to write where a time
    /// is written.
    pub fn step(self, reply: StoreReply, payload: &UpdateTicketPayload, now: Timestamp) -> (next: (
        TicketUpdate,
        TicketStep,
    ))
        ensures
            next.0 == next_step(self, reply, *payload, now).0,
            next.1@ == next_step(self, reply, *payload, now).1,
    {
        reveal_with_fuel(next_from, 11);
        let updated = self.updated;
        let previous = match reply {
            StoreReply::Failed => {
                return (
                    TicketUpdate { stage: TicketStage::Failed, updated, previous: self.previous },
                    TicketStep::Failed,
                );
            },
            StoreReply::Found(false) => {
                return (
                    TicketUpdate { stage: TicketStage::Missing, updated, previous: self.previous },
                    TicketStep::NotFound,
                );
            },
            StoreReply::Status(previous) => previous,
            _ => self.previous,
        };
        let mut stage = self.stage;
        if stage == TicketStage::Exists {
            return (TicketUpdate { stage: TicketStage::Title, updated, previous }, TicketStep::Probe);
        }
        if stage == TicketStage::Title {
            if let Some(title) = &payload.title {
                return (
                    TicketUpdate { stage: TicketStage::Description, updated: true, previous },
                    TicketStep::Write(TicketColumn::Title(title.clone())),
                );
            }
            stage = TicketStage::Description;
        }
        if stage == TicketStage::Description {
            if let Some(description) = &payload.description {
                return (
                    TicketUpdate { stage: TicketStage::Requester, updated: true, previous },
                    TicketStep::Write(TicketColumn::Description(description.clone())),
                );
            }
            stage = TicketStage::Requester;
        }
        if stage == TicketStage::Requester {
            if let Some(requester) = payload.requester {
                return (
                    TicketUpdate { stage: TicketStage::PreviousStatus, updated: true, previous },
                    TicketStep::Write(TicketColumn::Requester(requester)),
                );
            }
            stage = TicketStage::PreviousStatus;
        }
        if stage == TicketStage::PreviousStatus {
            if payload.status.is_some() {
                return (
                    TicketUpdate { stage: TicketStage::Status, updated, previous },
                    TicketStep::ReadStatus,
                );
            }
            stage = TicketStage::ClosedBy;
        }
        if stage == TicketStage::Status {
            if let Some(status) = payload.status {
                return (
                    TicketUpdate { stage: TicketStage::ClosedAt, updated: true, previous },
                    TicketStep::Write(TicketColumn::Status(status)),
                );
            }
            stage = TicketStage::ClosedBy;
        }
        if stage == TicketStage::ClosedAt {
            if let Some(status) = payload.status {
                if status == TicketStatus::Closed || status == TicketStatus::Cancelled {
                    if let Some(before) = previous {
                        if before != TicketStatus::Closed || before != TicketStatus::Cancelled {
                            return (
                                TicketUpdate { stage: TicketStage::ClosedBy, updated, previous },
                                TicketStep::Write(TicketColumn::ClosedAt(now)),
                            );
                        }
                    }
                }
            }
            stage = TicketStage::ClosedBy;
        }
        if stage == TicketStage::ClosedBy {
            if let Some(closed_by) = payload.closed_by {
                return (
                    TicketUpdate { stage: TicketStage::Solution, updated: true, previous },
                    TicketStep::Write(TicketColumn::ClosedBy(closed_by)),
                );
            }
            stage = TicketStage::Solution;
        }
        if stage == TicketStage::Solution {
            if let Some(solution) = &payload.solution {
                return (
                    TicketUpdate { stage: TicketStage::UpdatedAt, updated: true, previous },
                    TicketStep::Write(TicketColumn::Solution(solution.clone())),
                );
            }
            stage = TicketStage::UpdatedAt;
        }
        if stage == TicketStage::UpdatedAt {
            if updated {
                return (
                    TicketUpdate { stage: TicketStage::Finished, updated, previous },
                    TicketStep::Write(TicketColumn::UpdatedAt(now)),
                );
            }
            return (
                TicketUpdate { stage: TicketStage::Unchanged, updated, previous },
                TicketStep::NothingToDo,
            );
        }
        match stage {
            TicketStage::Missing => (
                TicketUpdate { stage: TicketStage::Missing, updated, previous },
                TicketStep::NotFound,
            ),
            TicketStage::Unchanged => (
                TicketUpdate { stage: TicketStage::Unchanged, updated, previous },
                TicketStep::NothingToDo,
            ),
            TicketStage::Failed => (
                TicketUpdate { stage: TicketStage::Failed, updated, previous },
                TicketStep::Failed,
            ),
            _ => (
                TicketUpdate { stage: TicketStage::Finished, updated, previous },
                TicketStep::Done(payload.id),
            ),
        }
    }
}

/// A ticket after a change was made at time `now`: each field that the
/// change names is overwritten, the others are kept. The time of closing is
/// set where the new status is terminal, and kept otherwise.
pub open spec fn changed_ticket(
    ticket: TicketData,
    payload: UpdateTicketPayload,
    now: Timestamp,
) -> TicketData {
    TicketData {
        id: ticket.id,
        title: match payload.title {
            Some(title) => title@,
            None => ticket.title,
        },
        description: match payload.description {
            Some(description) => description@,
            None => ticket.description,
        },
        requester: match payload.requester {
            Some(requester) => requester,
            None => ticket.requester,
        },
        status: match payload.status {
            Some(status) => status,
            None => ticket.status,
        },
        closed_by: match payload.closed_by {
            Some(closed_by) => Some(closed_by),
            None => ticket.closed_by,
        },
        solution: match payload.solution {
            Some(solution) => Some(solution@),
            None => ticket.solution,
        },
        created_at: ticket.created_at,
        updated_at: now,
        closed_at: if payload.status matches Some(status) && terminal(status) {
            Some(now)
        } else {
            ticket.closed_at
        },
    }
}

/// The tickets after a change: the ticket that the change names is changed,
/// the others are kept.
pub open spec fn changed_tickets(
    tickets: Seq<TicketData>,
    payload: UpdateTicketPayload,
    now: Timestamp,
) -> Seq<TicketData> {
    Seq::new(
        tickets.len(),
        |i: int|
            if tickets[i].id == payload.id {
                changed_ticket(tickets[i], payload, now)
            } else {
                tickets[i]
            },
    )
}

/// Whether a step comes before another in the order.
pub open spec fn precedes(step: TicketStage, stage: TicketStage) -> bool {
    stage_rank(step) < stage_rank(stage)
}

/// A ticket when the steps before `stage` are taken.
pub open spec fn partly_changed(
    stage: TicketStage,
    ticket: TicketData,
    payload: UpdateTicketPayload,
    now: Timestamp,
) -> TicketData {
    let whole = changed_ticket(ticket, payload, now);
    TicketData {
        id: ticket.id,
        title: if precedes(TicketStage::Title, stage) {
            whole.title
        } else {
            ticket.title
        },
        description: if precedes(TicketStage::Description, stage) {
            whole.description
        } else {
            ticket.description
        },
        requester: if precedes(TicketStage::Requester, stage) {
            whole.requester
        } else {
            ticket.requester
        },
        status: if precedes(TicketStage::Status, stage) {
            whole.status
        } else {
            ticket.status
        },
        closed_by: if precedes(TicketStage::ClosedBy, stage) {
            whole.closed_by
        } else {
            ticket.closed_by
        },
        solution: if precedes(TicketStage::Solution, stage) {
            whole.solution
        } else {
            ticket.solution
        },
        created_at: ticket.created_at,
        updated_at: if precedes(TicketStage::UpdatedAt, stage) && !payload.is_empty() {
            now
        } else {
            ticket.updated_at
        },
        closed_at: if precedes(TicketStage::ClosedAt, stage) {
            whole.closed_at
        } else {
            ticket.closed_at
        },
    }
}

/// The tickets when the steps before `stage` are taken.
pub open spec fn partly_changed_tickets(
    stage: TicketStage,
    tickets: Seq<TicketData>,
    payload: UpdateTicketPayload,
    now: Timestamp,
) -> Seq<TicketData> {
    Seq::new(
        tickets.len(),
        |i: int|
            if tickets[i].id == payload.id {
                partly_changed(stage, tickets[i], payload, now)
            } else {
                tickets[i]
            },
    )
}

/// Whether one of the steps before `stage` writes a field.
pub open spec fn written_before(stage: TicketStage, payload: UpdateTicketPayload) -> bool {
    ||| precedes(TicketStage::Title, stage) && payload.title is Some
    ||| precedes(TicketStage::Description, stage) && payload.description is Some
    ||| precedes(TicketStage::Requester, stage) && payload.requester is Some
    ||| precedes(TicketStage::Status, stage) && payload.status is Some
    ||| precedes(TicketStage::ClosedBy, stage) && payload.closed_by is Some
    ||| precedes(TicketStage::Solution, stage) && payload.solution is Some
}

/// Whether a change was carried out as it should be at time `now`. The
/// checks are made in this order, and the first that fails decides: a ticket
/// that is not there is `NotFound`; a change that names no field is
/// `NotModified`; neither writes anything. Otherwise the change is made and
/// answered with the identifier.
pub open spec fn carried_out(
    tickets: Seq<TicketData>,
    after: Seq<TicketData>,
    payload: UpdateTicketPayload,
    now: Timestamp,
    outcome: Result<Id, ApiError>,
) -> bool {
    if !has_ticket(tickets, payload.id) {
        (outcome matches Err(ApiError::NotFound)) && after == tickets
    } else if payload.is_empty() {
        (outcome matches Err(ApiError::NotModified)) && after == tickets
    } else {
        outcome == Ok::<Id, ApiError>(payload.id) && after == changed_tickets(tickets, payload, now)
    }
}

/// Tickets that agree row by row on identifier and status have the same
/// status under every identifier.
proof fn lemma_same_status(before: Seq<TicketData>, now: Seq<TicketData>, id: Id)
    requires
        before.len() == now.len(),
        forall|i: int|
            0 <= i < before.len() ==> (#[trigger] before[i]).id == now[i].id && before[i].status
                == now[i].status,
        distinct_ticket_ids(before),
        distinct_ticket_ids(now),
    ensures
        status_with_id(before, id) == status_with_id(now, id),
{
    if has_ticket(before, id) {
        let i = choose|i: int| 0 <= i < before.len() && (#[trigger] before[i]).id == id;
        assert(now[i].id == id);
        lemma_ticket_at(before, i);
        lemma_ticket_at(now, i);
    } else {
        if has_ticket(now, id) {
            let i = choose|i: int| 0 <= i < now.len() && (#[trigger] now[i]).id == id;
            assert(before[i].id == id);
        }
    }
}

/// The step at which a column is written.
pub open spec fn stage_of(column: TicketColumnData) -> TicketStage {
    match column {
        TicketColumnData::Title(_) => TicketStage::Title,
        TicketColumnData::Description(_) => TicketStage::Description,
        TicketColumnData::Requester(_) => TicketStage::Requester,
        TicketColumnData::Status(_) => TicketStage::Status,
        TicketColumnData::ClosedAt(_) => TicketStage::ClosedAt,
        TicketColumnData::ClosedBy(_) => TicketStage::ClosedBy,
        TicketColumnData::Solution(_) => TicketStage::Solution,
        TicketColumnData::UpdatedAt(_) => TicketStage::UpdatedAt,
    }
}

/// The step at which a column is written.
pub fn column_stage(column: &TicketColumn) -> (stage: TicketStage)
    ensures
        stage == stage_of(column@),
{
    match column {
        TicketColumn::Title(_) => TicketStage::Title,
        TicketColumn::Description(_) => TicketStage::Description,
        TicketColumn::Requester(_) => TicketStage::Requester,
        TicketColumn::Status(_) => TicketStage::Status,
        TicketColumn::ClosedAt(_) => TicketStage::ClosedAt,
        TicketColumn::ClosedBy(_) => TicketStage::ClosedBy,
        TicketColumn::Solution(_) => TicketStage::Solution,
        TicketColumn::UpdatedAt(_) => TicketStage::UpdatedAt,
    }
}

/// Whether a change of a ticket runs a statement at a step: the probe
/// always; everything else only if the ticket is there; a write only if the
/// change names the field, the time of closing only if the new status is
/// terminal, and the time of the change only if any field is named.
pub open spec fn runs(stage: TicketStage, tickets: Seq<TicketData>, payload: UpdateTicketPayload) -> bool {
    match stage {
        TicketStage::Exists => true,
        TicketStage::Title => has_ticket(tickets, payload.id) && payload.title is Some,
        TicketStage::Description => has_ticket(tickets, payload.id) && payload.description is Some,
        TicketStage::Requester => has_ticket(tickets, payload.id) && payload.requester is Some,
        TicketStage::PreviousStatus => has_ticket(tickets, payload.id) && payload.status is Some,
        TicketStage::Status => has_ticket(tickets, payload.id) && payload.status is Some,
        TicketStage::ClosedAt => has_ticket(tickets, payload.id) && (payload.status matches Some(
            status,
        ) && terminal(status)),
        TicketStage::ClosedBy => has_ticket(tickets, payload.id) && payload.closed_by is Some,
        TicketStage::Solution => has_ticket(tickets, payload.id) && payload.solution is Some,
        TicketStage::UpdatedAt => has_ticket(tickets, payload.id) && !payload.is_empty(),
        _ => false,
    }
}

/// Whether a change was carried out as it should be at time `now` by a store
/// that fails at the statement of the step `failing`, if that is given and
/// the change comes to it. The failure ends the change with
/// `DatabaseError`: what was written before that step stays written, the
/// rest is not written, and the time of the change is not stamped. A store
/// that does not fail carries the change out in full.
pub open spec fn carried_out_until(
    tickets: Seq<TicketData>,
    after: Seq<TicketData>,
    payload: UpdateTicketPayload,
    now: Timestamp,
    failing: Option<TicketStage>,
    outcome: Result<Id, ApiError>,
) -> bool {
    if failing matches Some(stage) && runs(stage, tickets, payload) {
        (outcome matches Err(ApiError::DatabaseError(_))) && after == partly_changed_tickets(
            failing.unwrap(),
            tickets,
            payload,
            now,
        )
    } else {
        carried_out(tickets, after, payload, now, outcome)
    }
}

/// The account that a request to open a ticket names as the requester, if
/// it names one that is there.
pub open spec fn named_requester(users: Seq<UserData>, payload: CreateTicketPayload) -> Option<
    UserData,
> {
    match payload.requester {
        Some(username) => user_named(users, username@),
        None => None,
    }
}

/// Whether a ticket was stored as it should be, where `id` is the identifier
/// that was drawn for it and `now` the moment. The store fails, and nothing
/// is stored, if no account has the username of the requester, or if the
/// identifier is taken. Otherwise the ticket is stored and returned.
pub open spec fn stored_as(
    tables: TablesData,
    after: TablesData,
    payload: CreateTicketPayload,
    id: Id,
    now: Timestamp,
    created: Result<Ticket, ApiError>,
) -> bool {
    match named_requester(tables.users, payload) {
        None => (created matches Err(ApiError::DatabaseError(_))) && after == tables,
        Some(requester) => if has_ticket(tables.tickets, id) {
            (created matches Err(ApiError::DatabaseError(_))) && after == tables
        } else {
            &&& created matches Ok(ticket) && ticket@ == new_ticket(
                id,
                payload.title@,
                payload.description@,
                requester.id,
                now,
            )
            &&& after.users == tables.users
            &&& after.tickets == tables.tickets.push(
                new_ticket(id, payload.title@, payload.description@, requester.id, now),
            )
        },
    }
}

/// Whether the store fails at this step.
fn fails_at(failing: Option<TicketStage>, stage: TicketStage) -> (fails: bool)
    ensures
        fails == (failing == Some(stage)),
{
    match failing {
        Some(failing) => failing == stage,
        None => false,
    }
}

/// What the failure of a statement is answered with: `DatabaseError`, with
/// what the store said.
pub fn store_failure(cause: String) -> (error: ApiError)
    ensures
        error == ApiError::DatabaseError(cause),
{
    ApiError::DatabaseError(cause)
}

/// The repository of tickets, on the tables held in memory.
pub struct TicketRepositoryImpl;

impl TicketRepositoryImpl {
    /// How many tickets there are.
    pub fn count(state: &AppState) -> (count: Result<i64, ApiError>)
        ensures
            count matches Ok(rows) && rows == row_count(
                state.db@.tickets.len(),
            ),
    {
        Ok(state.db.count_tickets())
    }

    /// All tickets that can be shown, in the order of the table.
    pub fn find_all(state: &AppState) -> (tickets: Result<Vec<TicketPublic>, ApiError>)
        requires
            state.db@.wf(),
        ensures
            tickets matches Ok(rows) && ticket_views(rows@) == shown_all(
                state.db@.users,
                state.db@.tickets,
            ),
    {
        Ok(state.db.select_tickets())
    }

    /// The ticket with this identifier; `Ok(None)` if there is none that can
    /// be shown.
    pub fn find_by_id(state: &AppState, id: Id) -> (ticket: Result<Option<TicketPublic>, ApiError>)
        requires
            state.db@.wf(),
        ensures
            ticket matches Ok(row) && ticket_view(row) == shown_with_id(state.db@, id),
    {
        Ok(state.db.select_ticket(id))
    }

    /// Opens a ticket for the account that the request names, under a fresh
    /// time-ordered identifier and at the current time. The store fails if
    /// no account has that username, or, which chance all but excludes, if
    /// the fresh identifier is taken; nothing is stored then.
    pub fn create(state: &mut AppState, payload: &CreateTicketPayload) -> (created: Result<
        Ticket,
        ApiError,
    >)
        requires
            old(state).db@.wf(),
        ensures
            final(state).db@.wf(),
            exists|id: Id, now: Timestamp| #[trigger]
                stored_as(old(state).db@, final(state).db@, *payload, id, now, created),
    {
        let id = Id::time_ordered();
        let now = Timestamp::now();
        let created = Self::create_with(state, payload, id, now);
        assert(stored_as(old(state).db@, state.db@, *payload, id, now, created));
        created
    }

    /// Opens a ticket for the account that the request names, under the
    /// identifier and at the moment given.
    pub fn create_with(
        state: &mut AppState,
        payload: &CreateTicketPayload,
        id: Id,
        now: Timestamp,
    ) -> (created: Result<Ticket, ApiError>)
        requires
            old(state).db@.wf(),
        ensures
            final(state).db@.wf(),
            stored_as(old(state).db@, final(state).db@, *payload, id, now, created),
    {
        let requester = match &payload.requester {
            Some(username) => state.db.select_user_by_username(username.as_str()),
            None => None,
        };
        let requester_id = match requester {
            Some(user) => user.id,
            None => {
                return Err(
                    store_failure(
                        "no rows returned by a query that expected to return at least one row".to_string(),
                    ),
                );
            },
        };
        let ticket = Ticket::new_at(
            payload.title.as_str(),
            payload.description.as_str(),
            requester_id,
            id,
            now,
        );
        let stored = ticket.duplicate();
        match state.db.insert_ticket(stored) {
            Ok(()) => Ok(ticket),
            Err(cause) => Err(store_failure(cause)),
        }
    }

    /// Changes a ticket, writing the current time where a time is written.
    pub fn update(state: &mut AppState, payload: &UpdateTicketPayload) -> (outcome: Result<
        Id,
        ApiError,
    >)
        requires
            old(state).db@.wf(),
        ensures
            final(state).db@.wf(),
            final(state).db@.users == old(state).db@.users,
            exists|now: Timestamp| #[trigger]
                carried_out(
                    old(state).db@.tickets,
                    final(state).db@.tickets,
                    *payload,
                    now,
                    outcome,
                ),
    {
        let now = Timestamp::now();
        let outcome = Self::update_at(state, payload, now);
        assert(carried_out(old(state).db@.tickets, state.db@.tickets, *payload, now, outcome));
        outcome
    }

    /// Changes a ticket at a given time: runs the statements that
    /// [`TicketUpdate`] decides on, one by one, until the change has ended.
    pub fn update_at(
        state: &mut AppState,
        payload: &UpdateTicketPayload,
        now: Timestamp,
    ) -> (outcome: Result<Id, ApiError>)
        requires
            old(state).db@.wf(),
        ensures
            final(state).db@.wf(),
            final(state).db@.users == old(state).db@.users,
            carried_out(old(state).db@.tickets, final(state).db@.tickets, *payload, now, outcome),
    {
        Self::update_until(state, payload, now, None)
    }

    /// Changes a ticket at a given time as [`TicketRepositoryImpl::update_at`]
    /// does, on a store that fails at the statement of the step `failing`,
    /// if one is given: the tables held in memory never fail by themselves,
    /// and this shows what a failure leaves behind.
    pub fn update_until(
        state: &mut AppState,
        payload: &UpdateTicketPayload,
        now: Timestamp,
        failing: Option<TicketStage>,
    ) -> (outcome: Result<Id, ApiError>)
        requires
            old(state).db@.wf(),
        ensures
            final(state).db@.wf(),
            final(state).db@.users == old(state).db@.users,
            carried_out_until(
                old(state).db@.tickets,
                final(state).db@.tickets,
                *payload,
                now,
                failing,
                outcome,
            ),
    {
        let ghost start = state.db@;
        let mut machine = TicketUpdate::new();
        let mut reply = StoreReply::Ready;
        assert(state.db@.tickets =~= partly_changed_tickets(
            machine.stage,
            start.tickets,
            *payload,
            now,
        ));
        loop
            invariant
                start == old(state).db@,
                start.wf(),
                state.db@.wf(),
                state.db@.users == start.users,
                state.db@.tickets == partly_changed_tickets(
                    machine.stage,
                    start.tickets,
                    *payload,
                    now,
                ),
                stage_rank(machine.stage) <= stage_rank(TicketStage::Finished),
                reply matches StoreReply::Found(found) ==> found == has_ticket(
                    start.tickets,
                    payload.id,
                ),
                !(machine.stage is Exists) && !(reply is Found) ==> has_ticket(
                    start.tickets,
                    payload.id,
                ),
                machine.stage is Exists ==> reply is Ready || reply is Failed,
                machine.updated == written_before(machine.stage, *payload),
                machine.stage == TicketStage::Finished ==> machine.updated,
                (machine.stage is Status || machine.stage is ClosedAt) && !(reply is Failed)
                    ==> known_previous(machine, reply) == status_with_id(
                    start.tickets,
                    payload.id,
                ),
                reply is Failed ==> (failing matches Some(stage) && runs(
                    stage,
                    start.tickets,
                    *payload,
                ) && state.db@.tickets == partly_changed_tickets(
                    stage,
                    start.tickets,
                    *payload,
                    now,
                )),
                !(reply is Failed) ==> (failing matches Some(stage) ==> !precedes(
                    stage,
                    machine.stage,
                ) || !runs(stage, start.tickets, *payload)),
            decreases
                    14 - stage_rank(machine.stage),
                    (if reply is Failed {
                        0nat
                    } else {
                        1nat
                    }),
        {
            reveal_with_fuel(next_from, 11);
            let (next, action) = machine.step(reply, payload, now);
            match action {
                TicketStep::Probe => {
                    if fails_at(failing, TicketStage::Exists) {
                        proof {
                            assert(state.db@.tickets =~= partly_changed_tickets(
                                TicketStage::Exists,
                                start.tickets,
                                *payload,
                                now,
                            ));
                        }
                        reply = StoreReply::Failed;
                    } else {
                        reply = StoreReply::Found(state.db.ticket_exists(payload.id));
                        proof {
                            assert(state.db@.tickets =~= start.tickets);
                            assert(state.db@.tickets =~= partly_changed_tickets(
                                next.stage,
                                start.tickets,
                                *payload,
                                now,
                            ));
                        }
                        machine = next;
                    }
                },
                TicketStep::Write(column) => {
                    let stage = column_stage(&column);
                    if fails_at(failing, stage) {
                        proof {
                            assert(state.db@.tickets =~= partly_changed_tickets(
                                stage,
                                start.tickets,
                                *payload,
                                now,
                            ));
                        }
                        reply = StoreReply::Failed;
                    } else {
                        state.db.update_ticket(payload.id, &column);
                        reply = StoreReply::Written;
                        proof {
                            assert forall|i: int| 0 <= i < start.tickets.len() implies
                                #[trigger] state.db@.tickets[i] == partly_changed_tickets(
                                    next.stage,
                                    start.tickets,
                                    *payload,
                                    now,
                                )[i] by {
                                if start.tickets[i].id == payload.id {
                                    lemma_ticket_at(start.tickets, i);
                                }
                            }
                            assert(state.db@.tickets =~= partly_changed_tickets(
                                next.stage,
                                start.tickets,
                                *payload,
                                now,
                            ));
                        }
                        machine = next;
                    }
                },
                TicketStep::ReadStatus => {
                    if fails_at(failing, TicketStage::PreviousStatus) {
                        proof {
                            assert(state.db@.tickets =~= partly_changed_tickets(
                                TicketStage::PreviousStatus,
                                start.tickets,
                                *payload,
                                now,
                            ));
                        }
                        reply = StoreReply::Failed;
                    } else {
                        let status = state.db.select_ticket_status(payload.id);
                        reply = StoreReply::Status(status);
                        proof {
                            lemma_same_status(start.tickets, state.db@.tickets, payload.id);
                            assert(state.db@.tickets =~= partly_changed_tickets(
                                next.stage,
                                start.tickets,
                                *payload,
                                now,
                            ));
                        }
                        machine = next;
                    }
                },
                TicketStep::Done(id) => {
                    proof {
                        assert(state.db@.tickets =~= changed_tickets(
                            start.tickets,
                            *payload,
                            now,
                        ));
                    }
                    return Ok(id);
                },
                TicketStep::NothingToDo => {
                    proof {
                        assert(state.db@.tickets =~= start.tickets);
                    }
                    return Err(ApiError::NotModified);
                },
                TicketStep::NotFound => {
                    proof {
                        assert(state.db@.tickets =~= start.tickets);
                    }
                    return Err(ApiError::NotFound);
                },
                TicketStep::Failed => {
                    return Err(store_failure("the statement failed".to_string()));
                },
            }
        }
    }

    /// Deletes the ticket with this identifier. Deleting what is not there
    /// succeeds and changes nothing.
    pub fn delete(state: &mut AppState, payload: &DeletePayload) -> (outcome: Result<(), ApiError>)
        requires
            old(state).db@.wf(),
        ensures
            outcome is Ok,
            final(state).db@.wf(),
            final(state).db@.users == old(state).db@.users,
            final(state).db@.tickets == without_ticket(
                old(state).db@.tickets,
                payload.id,
            ),
            !has_ticket(final(state).db@.tickets, payload.id),
    {
        state.db.delete_ticket(payload.id);
        Ok(())
    }
}

/// A ticket that was stored is found under its identifier, and is shown
/// with the fields it was stored with and with the account of its requester.
pub proof fn lemma_stored_ticket_is_found(
    tables: TablesData,
    ticket: TicketData,
    requester: UserData,
)
    requires
        tables.wf(),
        !has_ticket(tables.tickets, ticket.id),
        user_with_id(tables.users, ticket.requester) == Some(requester),
    ensures
        ({
            let stored = TablesData {
                users: tables.users,
                tickets: tables.tickets.push(ticket),
            };
            &&& stored.wf()
            &&& ticket_with_id(stored.tickets, ticket.id) == Some(ticket)
            &&& shown_with_id(stored, ticket.id) matches Some(shown)
            &&& shown.id == ticket.id
            &&& shown.title == ticket.title
            &&& shown.description == ticket.description
            &&& shown.status == ticket.status
            &&& shown.solution == ticket.solution
            &&& shown.closed_at == ticket.closed_at
            &&& shown.requester == requester_part(requester)
        }),
{
    let tickets = tables.tickets.push(ticket);
    let last = tables.tickets.len() as int;
    assert(tickets[last] == ticket);
    assert forall|i: int, j: int|
        0 <= i < tickets.len() && 0 <= j < tickets.len() && i != j implies (#[trigger] tickets[i]).id
        != (#[trigger] tickets[j]).id by {
        if i < last && j < last {
            assert(tickets[i] == tables.tickets[i]);
            assert(tickets[j] == tables.tickets[j]);
        } else if i < last {
            assert(tickets[i] == tables.tickets[i]);
        } else {
            assert(tickets[j] == tables.tickets[j]);
        }
    }
    lemma_ticket_at(tickets, last);
}

/// A change that names no field writes nothing: once the ticket is found,
/// it is refused at the next step.
pub proof fn lemma_empty_change_writes_nothing(payload: UpdateTicketPayload, now: Timestamp)
    requires
        payload.is_empty(),
    ensures
        next_step(after(TicketStage::Exists, false, None), StoreReply::Ready, payload, now)
            == (after(TicketStage::Title, false, None), TicketStepData::Probe),
        next_step(after(TicketStage::Title, false, None), StoreReply::Found(true), payload, now).1
            == TicketStepData::NothingToDo,
{
    reveal_with_fuel(next_from, 11);
}

/// A ticket that is not there ends the change before anything is written.
pub proof fn lemma_missing_ticket_ends_the_change(
    state: TicketUpdate,
    payload: UpdateTicketPayload,
    now: Timestamp,
)
    ensures
        next_step(state, StoreReply::Found(false), payload, now).1 == TicketStepData::NotFound,
        next_step(state, StoreReply::Found(false), payload, now).0.stage == TicketStage::Missing,
{
}

/// A statement that failed ends the change: the next step is to answer with
/// the failure, whatever is left to write, and after that no step writes.
pub proof fn lemma_failure_ends_the_change(
    state: TicketUpdate,
    reply: StoreReply,
    payload: UpdateTicketPayload,
    now: Timestamp,
)
    ensures
        next_step(state, StoreReply::Failed, payload, now).1 == TicketStepData::Failed,
        next_step(state, StoreReply::Failed, payload, now).0.stage == TicketStage::Failed,
        state.stage == TicketStage::Failed ==> !(next_step(state, reply, payload, now).1 is Write),
{
    reveal_with_fuel(next_from, 2);
}

/// No status is both `Closed` and `Cancelled`, so the time of closing is
/// written on every move into a terminal status of a ticket that is there.
pub proof fn lemma_stamp_on_every_closing(new_status: TicketStatus, previous: TicketStatus)
    ensures
        stamps_closed_at(Some(new_status), Some(previous)) == terminal(new_status),
{
}

/// Closing a ticket sets the time of closing, and a later change leaves that
/// time as it is unless it moves the ticket into a terminal status again.
pub proof fn lemma_closing_time_is_kept(
    ticket: TicketData,
    closing: UpdateTicketPayload,
    closed_at: Timestamp,
    later: UpdateTicketPayload,
    later_at: Timestamp,
)
    requires
        closing.status == Some(TicketStatus::Closed),
        later.status matches Some(status) ==> !terminal(status),
    ensures
        changed_ticket(ticket, closing, closed_at).status == TicketStatus::Closed,
        changed_ticket(ticket, closing, closed_at).closed_at == Some(closed_at),
        changed_ticket(changed_ticket(ticket, closing, closed_at), later, later_at).closed_at
            == Some(closed_at),
{
}

/// A change touches no ticket but the one it names.
pub proof fn lemma_change_is_local(
    tickets: Seq<TicketData>,
    payload: UpdateTicketPayload,
    now: Timestamp,
    i: int,
)
    requires
        0 <= i < tickets.len(),
        tickets[i].id != payload.id,
    ensures
        changed_tickets(tickets, payload, now)[i] == tickets[i],
        changed_tickets(tickets, payload, now).len() == tickets.len(),
{
}

impl Ticket {
    /// How many tickets there are.
    pub fn count(state: &AppState) -> (count: Result<i64, ApiError>)
        ensures
            count matches Ok(rows) && rows == row_count(
                state.db@.tickets.len(),
            ),
    {
        TicketRepositoryImpl::count(state)
    }

    /// All tickets that can be shown, in the order of the table.
    pub fn find_all(state: &AppState) -> (tickets: Result<Vec<TicketPublic>, ApiError>)
        requires
            state.db@.wf(),
        ensures
            tickets matches Ok(rows) && ticket_views(rows@) == shown_all(
                state.db@.users,
                state.db@.tickets,
            ),
    {
        TicketRepositoryImpl::find_all(state)
    }

    /// The ticket with this identifier; `Ok(None)` if there is none that can
    /// be shown.
    pub fn find_by_id(state: &AppState, id: Id) -> (ticket: Result<Option<TicketPublic>, ApiError>)
        requires
            state.db@.wf(),
        ensures
            ticket matches Ok(row) && ticket_view(row) == shown_with_id(state.db@, id),
    {
        TicketRepositoryImpl::find_by_id(state, id)
    }

    /// Opens a ticket for the account that the request names, under a fresh
    /// time-ordered identifier and at the current time. The store fails if
    /// no account has that username, or, which chance all but excludes, if
    /// the fresh identifier is taken; nothing is stored then.
    pub fn create(state: &mut AppState, payload: &CreateTicketPayload) -> (created: Result<
        Ticket,
        ApiError,
    >)
        requires
            old(state).db@.wf(),
        ensures
            final(state).db@.wf(),
            exists|id: Id, now: Timestamp| #[trigger]
                stored_as(old(state).db@, final(state).db@, *payload, id, now, created),
    {
        TicketRepositoryImpl::create(state, payload)
    }

    /// Changes a ticket, writing the current time where a time is written.
    pub fn update(state: &mut AppState, payload: &UpdateTicketPayload) -> (outcome: Result<
        Id,
        ApiError,
    >)
        requires
            old(state).db@.wf(),
        ensures
            final(state).db@.wf(),
            final(state).db@.users == old(state).db@.users,
            exists|now: Timestamp| #[trigger]
                carried_out(
                    old(state).db@.tickets,
                    final(state).db@.tickets,
                    *payload,
                    now,
                    outcome,
                ),
    {
        TicketRepositoryImpl::update(state, payload)
    }

    /// Deletes the ticket with this identifier. Deleting what is not there
    /// succeeds and changes nothing.
    pub fn delete(state: &mut AppState, payload: &DeletePayload) -> (outcome: Result<(), ApiError>)
        requires
            old(state).db@.wf(),
        ensures
            outcome is Ok,
            final(state).db@.wf(),
            final(state).db@.users == old(state).db@.users,
            final(state).db@.tickets == without_ticket(
                old(state).db@.tickets,
                payload.id,
            ),
            !has_ticket(final(state).db@.tickets, payload.id),
    {
        TicketRepositoryImpl::delete(state, payload)
    }
}

} // verus!
