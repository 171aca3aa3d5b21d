//! The statements on the table of tickets.

use crate::database::{
    has_ticket, lemma_ticket_at, lemma_user_at, resolved, row_count, shown, shown_all,
    shown_with_id, ticket_view, ticket_views, ticket_with_id, Tables,
};
use crate::models::{clone_text, Id, Timestamp};
use crate::models::ticket::{
    requester_of, requester_part, RequesterInfo, Ticket, TicketData, TicketPublic, TicketStatus,
};
use crate::models::user::User;
use vstd::prelude::*;

verus! {

/// One column of a ticket, with the value to write into it.
#[derive(Clone, Debug, PartialEq, Eq)]
pub enum TicketColumn {
    Title(String),
    Description(String),
    Requester(Id),
    Status(TicketStatus),
    ClosedAt(Timestamp),
    ClosedBy(Id),
    Solution(String),
    UpdatedAt(Timestamp),
}

/// What a column write holds.
pub enum TicketColumnData {
    Title(Seq<char>),
    Description(Seq<char>),
    Requester(Id),
    Status(TicketStatus),
    ClosedAt(Timestamp),
    ClosedBy(Id),
    Solution(Seq<char>),
    UpdatedAt(Timestamp),
}

impl View for TicketColumn {
    type V = TicketColumnData;

    open spec fn view(&self) -> TicketColumnData {
        match self {
            TicketColumn::Title(text) => TicketColumnData::Title(text@),
            TicketColumn::Description(text) => TicketColumnData::Description(text@),
            TicketColumn::Requester(id) => TicketColumnData::Requester(*id),
            TicketColumn::Status(status) => TicketColumnData::Status(*status),
            TicketColumn::ClosedAt(at) => TicketColumnData::ClosedAt(*at),
            TicketColumn::ClosedBy(id) => TicketColumnData::ClosedBy(*id),
            TicketColumn::Solution(text) => TicketColumnData::Solution(text@),
            TicketColumn::UpdatedAt(at) => TicketColumnData::UpdatedAt(*at),
        }
    }
}

/// A ticket after one column was written.
pub open spec fn with_ticket_column(ticket: TicketData, column: TicketColumnData) -> TicketData {
    match column {
        TicketColumnData::Title(text) => TicketData { title: text, ..ticket },
        TicketColumnData::Description(text) => TicketData { description: text, ..ticket },
        TicketColumnData::Requester(id) => TicketData { requester: id, ..ticket },
        TicketColumnData::Status(status) => TicketData { status, ..ticket },
        TicketColumnData::ClosedAt(at) => TicketData { closed_at: Some(at), ..ticket },
        TicketColumnData::ClosedBy(id) => TicketData { closed_by: Some(id), ..ticket },
        TicketColumnData::Solution(text) => TicketData { solution: Some(text), ..ticket },
        TicketColumnData::UpdatedAt(at) => TicketData { updated_at: at, ..ticket },
    }
}

/// The tickets after one column was written in every row with this
/// identifier.
pub open spec fn set_ticket_column(
    tickets: Seq<TicketData>,
    id: Id,
    column: TicketColumnData,
) -> Seq<TicketData> {
    Seq::new(
        tickets.len(),
        |i: int|
            if tickets[i].id == id {
                with_ticket_column(tickets[i], column)
            } else {
                tickets[i]
            },
    )
}

/// The tickets without the row that has this identifier.
pub open spec fn without_ticket(tickets: Seq<TicketData>, id: Id) -> Seq<TicketData> {
    if has_ticket(tickets, id) {
        tickets.remove(choose|i: int| 0 <= i < tickets.len() && (#[trigger] tickets[i]).id == id)
    } else {
        tickets
    }
}

/// The status of the ticket with this identifier, if there is one.
pub open spec fn status_with_id(tickets: Seq<TicketData>, id: Id) -> Option<TicketStatus> {
    match ticket_with_id(tickets, id) {
        Some(ticket) => Some(ticket.status),
        None => None,
    }
}

impl Ticket {
    /// This ticket with one column overwritten.
    pub fn with_column(&self, column: &TicketColumn) -> (ticket: Ticket)
        ensures
            ticket@ == with_ticket_column(self@, column@),
    {
        let mut ticket = self.duplicate();
        match column {
            TicketColumn::Title(text) => {
                ticket.title = text.clone();
            },
            TicketColumn::Description(text) => {
                ticket.description = text.clone();
            },
            TicketColumn::Requester(id) => {
                ticket.requester = *id;
            },
            TicketColumn::Status(status) => {
                ticket.status = *status;
            },
            TicketColumn::ClosedAt(at) => {
                ticket.closed_at = Some(*at);
            },
            TicketColumn::ClosedBy(id) => {
                ticket.closed_by = Some(*id);
            },
            TicketColumn::Solution(text) => {
                ticket.solution = Some(text.clone());
            },
            TicketColumn::UpdatedAt(at) => {
                ticket.updated_at = *at;
            },
        }
        ticket
    }
}

impl User {
    /// What a ticket shows of this account.
    pub fn to_requester(&self) -> (info: RequesterInfo)
        ensures
            info@ == requester_part(self@),
    {
        RequesterInfo {
            id: self.id,
            username: self.username.clone(),
            email: clone_text(&self.email),
            first_name: clone_text(&self.first_name),
            last_name: clone_text(&self.last_name),
        }
    }
}

impl Tables {
    /// `SELECT COUNT(*) FROM tickets`.
    pub fn count_tickets(&self) -> (count: i64)
        ensures
            count == row_count(self@.tickets.len()),
    {
        let rows: u64 = self.tickets.len() as u64;
        if rows <= 0x7fff_ffff_ffff_ffff {
            rows as i64
        } else {
            i64::MAX
        }
    }

    /// Whether a ticket has this identifier.
    pub fn ticket_exists(&self, id: Id) -> (exists: bool)
        ensures
            exists == has_ticket(self@.tickets, id),
    {
        self.ticket_position(id).is_some()
    }

    /// `SELECT status FROM tickets WHERE id = $1`.
    pub fn select_ticket_status(&self, id: Id) -> (status: Option<TicketStatus>)
        requires
            self@.wf(),
        ensures
            status == status_with_id(self@.tickets, id),
    {
        match self.ticket_position(id) {
            Some(i) => {
                proof {
                    lemma_ticket_at(self@.tickets, i as int);
                }
                Some(self.tickets[i].status)
            },
            None => None,
        }
    }

    /// The account a reference resolves to, as a ticket shows it.
    fn resolve(&self, reference: Option<Id>) -> (info: Option<RequesterInfo>)
        requires
            self@.wf(),
        ensures
            requester_of(info) == resolved(self@.users, reference),
    {
        match reference {
            Some(id) => match self.user_position(id) {
                Some(i) => {
                    proof {
                        lemma_user_at(self@.users, i as int);
                    }
                    Some(self.users[i].to_requester())
                },
                None => None,
            },
            None => None,
        }
    }

    /// The ticket in this row as it is shown, if it is.
    fn show(&self, row: usize) -> (ticket: Option<TicketPublic>)
        requires
            self@.wf(),
            row < self@.tickets.len(),
        ensures
            ticket_view(ticket) == shown(self@.users, self@.tickets[row as int]),
    {
        let stored = &self.tickets[row];
        match self.resolve(Some(stored.requester)) {
            Some(requester) => Some(
                TicketPublic {
                    id: stored.id,
                    title: stored.title.clone(),
                    description: stored.description.clone(),
                    status: stored.status,
                    solution: clone_text(&stored.solution),
                    created_at: stored.created_at,
                    updated_at: stored.updated_at,
                    closed_at: stored.closed_at,
                    requester,
                    closed_by: self.resolve(stored.closed_by),
                },
            ),
            None => None,
        }
    }

    /// The ticket with this identifier, joined with the accounts it refers
    /// to.
    pub fn select_ticket(&self, id: Id) -> (ticket: Option<TicketPublic>)
        requires
            self@.wf(),
        ensures
            ticket_view(ticket) == shown_with_id(self@, id),
    {
        match self.ticket_position(id) {
            Some(i) => {
                proof {
                    lemma_ticket_at(self@.tickets, i as int);
                }
                self.show(i)
            },
            None => None,
        }
    }

    /// All tickets, joined with the accounts they refer to.
    pub fn select_tickets(&self) -> (tickets: Vec<TicketPublic>)
        requires
            self@.wf(),
        ensures
            ticket_views(tickets@) == shown_all(self@.users, self@.tickets),
    {
        let mut tickets: Vec<TicketPublic> = Vec::new();
        let mut i: usize = 0;
        assert(ticket_views(tickets@) =~= shown_all(self@.users, self@.tickets.take(0)));
        while i < self.tickets.len()
            invariant
                self@.wf(),
                i <= self.tickets.len(),
                ticket_views(tickets@) == shown_all(self@.users, self@.tickets.take(i as int)),
            decreases self.tickets.len() - i,
        {
            proof {
                assert(self@.tickets.take(i as int + 1).drop_last() =~= self@.tickets.take(
                    i as int,
                ));
                assert(self@.tickets.take(i as int + 1).last() == self@.tickets[i as int]);
            }
            let ghost before = tickets@;
            match self.show(i) {
                Some(ticket) => {
                    tickets.push(ticket);
                    assert(ticket_views(tickets@) =~= ticket_views(before).push(ticket@));
                },
                None => {},
            }
            i += 1;
        }
        assert(self@.tickets.take(i as int) =~= self@.tickets);
        tickets
    }

    /// `INSERT INTO tickets`. The store rejects a row whose identifier is
    /// taken.
    pub fn insert_ticket(&mut self, ticket: Ticket) -> (outcome: Result<(), String>)
        requires
            old(self)@.wf(),
        ensures
            final(self)@.wf(),
            final(self)@.users == old(self)@.users,
            outcome is Ok <==> !has_ticket(old(self)@.tickets, ticket.id),
            outcome is Ok ==> final(self)@.tickets == old(self)@.tickets.push(ticket@),
            outcome matches Err(cause) ==> final(self)@ == old(self)@ && cause@
                == "duplicate key value violates unique constraint \"tickets_pkey\""@,
    {
        match self.ticket_position(ticket.id) {
            Some(_) => Err(
                "duplicate key value violates unique constraint \"tickets_pkey\"".to_string(),
            ),
            None => {
                self.tickets.push(ticket);
                assert(self@.tickets =~= old(self)@.tickets.push(ticket@));
                assert(self@.users =~= old(self)@.users);
                Ok(())
            },
        }
    }

    /// `UPDATE tickets SET <column> = $1 WHERE id = $2`.
    pub fn update_ticket(&mut self, id: Id, column: &TicketColumn)
        requires
            old(self)@.wf(),
        ensures
            final(self)@.wf(),
            final(self)@.users == old(self)@.users,
            final(self)@.tickets == set_ticket_column(old(self)@.tickets, id, column@),
    {
        match self.ticket_position(id) {
            Some(i) => {
                let ticket = self.tickets[i].with_column(column);
                self.tickets.set(i, ticket);
                assert(self@.tickets =~= set_ticket_column(old(self)@.tickets, id, column@));
            },
            None => {
                assert(self@.tickets =~= set_ticket_column(old(self)@.tickets, id, column@));
            },
        }
        assert(self@.users =~= old(self)@.users);
    }

    /// `DELETE FROM tickets WHERE id = $1`. Deleting what is not there
    /// changes nothing.
    pub fn delete_ticket(&mut self, id: Id)
        requires
            old(self)@.wf(),
        ensures
            final(self)@.wf(),
            final(self)@.users == old(self)@.users,
            final(self)@.tickets == without_ticket(old(self)@.tickets, id),
            !has_ticket(final(self)@.tickets, id),
    {
        match self.ticket_position(id) {
            Some(i) => {
                proof {
                    lemma_ticket_at(self@.tickets, i as int);
                    let j = choose|j: int|
                        0 <= j < self@.tickets.len() && (#[trigger] self@.tickets[j]).id == id;
                    assert(j == i);
                }
                self.tickets.remove(i);
                assert(self@.tickets =~= old(self)@.tickets.remove(i as int));
            },
            None => {},
        }
        assert(self@.users =~= old(self)@.users);
    }
}

} // verus!
