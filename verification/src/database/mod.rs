//! The relational state the repositories work on: a table of accounts and a
//! table of tickets, held in memory.
//!
//! The tables keep what a relational store keeps for them: no two accounts
//! share an identifier or a username, and no two tickets share an
//! identifier. A statement that would break this is rejected, as a store
//! rejects a duplicate key.

use crate::models::{same_text, Id};
use crate::models::ticket::{
    requester_part, shown_ticket, RequesterData, Ticket, TicketData, TicketPublic, TicketPublicData,
};
use crate::models::user::{public_part, User, UserData, UserPublic, UserPublicData};
use vstd::prelude::*;

pub mod repositories;
pub mod tickets;
pub mod users;

verus! {

/// The two tables.
#[derive(Clone, Debug, PartialEq, Eq)]
pub struct Tables {
    pub users: Vec<User>,
    pub tickets: Vec<Ticket>,
}

/// What the two tables hold, row by row.
pub struct TablesData {
    pub users: Seq<UserData>,
    pub tickets: Seq<TicketData>,
}

/// The state shared by all requests.
#[derive(Clone, Debug, PartialEq, Eq)]
pub struct AppState {
    pub db: Tables,
}

impl View for Tables {
    type V = TablesData;

    open spec fn view(&self) -> TablesData {
        TablesData {
            users: Seq::new(self.users@.len(), |i: int| self.users@[i]@),
            tickets: Seq::new(self.tickets@.len(), |i: int| self.tickets@[i]@),
        }
    }
}

/// Whether a row of the accounts has this identifier.
pub open spec fn has_user(users: Seq<UserData>, id: Id) -> bool {
    exists|i: int| 0 <= i < users.len() && (#[trigger] users[i]).id == id
}

/// The account with this identifier, if there is one.
pub open spec fn user_with_id(users: Seq<UserData>, id: Id) -> Option<UserData> {
    if has_user(users, id) {
        Some(users[choose|i: int| 0 <= i < users.len() && (#[trigger] users[i]).id == id])
    } else {
        None
    }
}

/// Whether a row of the accounts has this username.
pub open spec fn has_username(users: Seq<UserData>, username: Seq<char>) -> bool {
    exists|i: int| 0 <= i < users.len() && (#[trigger] users[i]).username == username
}

/// The account with this username, if there is one.
pub open spec fn user_named(users: Seq<UserData>, username: Seq<char>) -> Option<UserData> {
    if has_username(users, username) {
        Some(
            users[choose|i: int|
                0 <= i < users.len() && (#[trigger] users[i]).username == username],
        )
    } else {
        None
    }
}

/// Whether a row of the tickets has this identifier.
pub open spec fn has_ticket(tickets: Seq<TicketData>, id: Id) -> bool {
    exists|i: int| 0 <= i < tickets.len() && (#[trigger] tickets[i]).id == id
}

/// The ticket with this identifier, if there is one.
pub open spec fn ticket_with_id(tickets: Seq<TicketData>, id: Id) -> Option<TicketData> {
    if has_ticket(tickets, id) {
        Some(tickets[choose|i: int| 0 <= i < tickets.len() && (#[trigger] tickets[i]).id == id])
    } else {
        None
    }
}

/// No two accounts share an identifier.
pub open spec fn distinct_user_ids(users: Seq<UserData>) -> bool {
    forall|i: int, j: int|
        0 <= i < users.len() && 0 <= j < users.len() && i != j ==> (#[trigger] users[i]).id != (
        #[trigger] users[j]).id
}

/// No two accounts share a username.
pub open spec fn distinct_usernames(users: Seq<UserData>) -> bool {
    forall|i: int, j: int|
        0 <= i < users.len() && 0 <= j < users.len() && i != j ==> (#[trigger] users[i]).username
            != (#[trigger] users[j]).username
}

/// No two tickets share an identifier.
pub open spec fn distinct_ticket_ids(tickets: Seq<TicketData>) -> bool {
    forall|i: int, j: int|
        0 <= i < tickets.len() && 0 <= j < tickets.len() && i != j ==> (#[trigger] tickets[i]).id
            != (#[trigger] tickets[j]).id
}

impl TablesData {
    /// The keys are unique.
    pub open spec fn wf(self) -> bool {
        &&& distinct_user_ids(self.users)
        &&& distinct_usernames(self.users)
        &&& distinct_ticket_ids(self.tickets)
    }
}

/// The account a reference resolves to, as a ticket shows it.
pub open spec fn resolved(users: Seq<UserData>, reference: Option<Id>) -> Option<RequesterData> {
    match reference {
        Some(id) => match user_with_id(users, id) {
            Some(user) => Some(requester_part(user)),
            None => None,
        },
        None => None,
    }
}

/// How a ticket is shown. A ticket whose requester is not among the accounts
/// is not shown at all; one whose closer is not among them is shown without a
/// closer.
pub open spec fn shown(users: Seq<UserData>, ticket: TicketData) -> Option<TicketPublicData> {
    match user_with_id(users, ticket.requester) {
        Some(requester) => Some(
            shown_ticket(ticket, requester_part(requester), resolved(users, ticket.closed_by)),
        ),
        None => None,
    }
}

/// The tickets that are shown, in the order of the table.
pub open spec fn shown_all(users: Seq<UserData>, tickets: Seq<TicketData>) -> Seq<
    TicketPublicData,
>
    decreases tickets.len(),
{
    if tickets.len() == 0 {
        Seq::empty()
    } else {
        match shown(users, tickets.last()) {
            Some(ticket) => shown_all(users, tickets.drop_last()).push(ticket),
            None => shown_all(users, tickets.drop_last()),
        }
    }
}

/// The ticket with this identifier as it is shown, if it is.
pub open spec fn shown_with_id(tables: TablesData, id: Id) -> Option<TicketPublicData> {
    match ticket_with_id(tables.tickets, id) {
        Some(ticket) => shown(tables.users, ticket),
        None => None,
    }
}

/// The accounts as they are shown.
pub open spec fn public_users(users: Seq<UserData>) -> Seq<UserPublicData> {
    Seq::new(users.len(), |i: int| public_part(users[i]))
}

/// The account with this identifier as it is shown, if there is one.
pub open spec fn public_user(users: Seq<UserData>, id: Id) -> Option<UserPublicData> {
    match user_with_id(users, id) {
        Some(user) => Some(public_part(user)),
        None => None,
    }
}

/// The views of shown accounts.
pub open spec fn user_views(users: Seq<UserPublic>) -> Seq<UserPublicData> {
    Seq::new(users.len(), |i: int| users[i]@)
}

/// The views of shown tickets.
pub open spec fn ticket_views(tickets: Seq<TicketPublic>) -> Seq<TicketPublicData> {
    Seq::new(tickets.len(), |i: int| tickets[i]@)
}

/// The view of an optional shown account.
pub open spec fn user_view(user: Option<UserPublic>) -> Option<UserPublicData> {
    match user {
        Some(user) => Some(user@),
        None => None,
    }
}

/// The view of an optional stored account.
pub open spec fn account_view(user: Option<User>) -> Option<UserData> {
    match user {
        Some(user) => Some(user@),
        None => None,
    }
}

/// The view of an optional shown ticket.
pub open spec fn ticket_view(ticket: Option<TicketPublic>) -> Option<TicketPublicData> {
    match ticket {
        Some(ticket) => Some(ticket@),
        None => None,
    }
}

/// A number of rows as a count: the number itself, as far as `i64` reaches.
pub open spec fn row_count(rows: nat) -> int {
    if rows <= i64::MAX {
        rows as int
    } else {
        i64::MAX as int
    }
}

/// With unique identifiers, the account found at any matching row is the
/// account with that identifier.
pub proof fn lemma_user_at(users: Seq<UserData>, i: int)
    requires
        distinct_user_ids(users),
        0 <= i < users.len(),
    ensures
        user_with_id(users, users[i].id) == Some(users[i]),
{
    let id = users[i].id;
    assert(has_user(users, id));
    let j = choose|j: int| 0 <= j < users.len() && (#[trigger] users[j]).id == id;
    assert(j == i);
}

/// With unique usernames, the account found at any matching row is the
/// account with that username.
pub proof fn lemma_user_named_at(users: Seq<UserData>, i: int)
    requires
        distinct_usernames(users),
        0 <= i < users.len(),
    ensures
        user_named(users, users[i].username) == Some(users[i]),
{
    let name = users[i].username;
    assert(has_username(users, name));
    let j = choose|j: int| 0 <= j < users.len() && (#[trigger] users[j]).username == name;
    assert(j == i);
}

/// With unique identifiers, the ticket found at any matching row is the
/// ticket with that identifier.
pub proof fn lemma_ticket_at(tickets: Seq<TicketData>, i: int)
    requires
        distinct_ticket_ids(tickets),
        0 <= i < tickets.len(),
    ensures
        ticket_with_id(tickets, tickets[i].id) == Some(tickets[i]),
{
    let id = tickets[i].id;
    assert(has_ticket(tickets, id));
    let j = choose|j: int| 0 <= j < tickets.len() && (#[trigger] tickets[j]).id == id;
    assert(j == i);
}

impl AppState {
    /// The state of a service that has stored nothing yet.
    pub fn new() -> (state: AppState)
        ensures
            state.db@.wf(),
            state.db@.users.len() == 0,
            state.db@.tickets.len() == 0,
    {
        AppState { db: Tables::new() }
    }
}

impl Tables {
    /// Two empty tables.
    pub fn new() -> (tables: Tables)
        ensures
            tables@.wf(),
            tables@.users.len() == 0,
            tables@.tickets.len() == 0,
    {
        Tables { users: Vec::new(), tickets: Vec::new() }
    }

    /// Whether no two accounts share an identifier or a username.
    fn accounts_are_distinct(&self) -> (ok: bool)
        ensures
            ok == (distinct_user_ids(self@.users) && distinct_usernames(self@.users)),
    {
        let mut i: usize = 0;
        while i < self.users.len()
            invariant
                i <= self.users.len(),
                forall|a: int, b: int|
                    0 <= a < i && 0 <= b < i && a != b ==> (#[trigger] self@.users[a]).id != (
                    #[trigger] self@.users[b]).id && self@.users[a].username
                        != self@.users[b].username,
            decreases self.users.len() - i,
        {
            let mut j: usize = 0;
            while j < i
                invariant
                    j <= i < self.users.len(),
                    forall|b: int|
                        0 <= b < j ==> (#[trigger] self@.users[b]).id != self@.users[i as int].id
                            && self@.users[b].username != self@.users[i as int].username,
                decreases i - j,
            {
                if self.users[j].id == self.users[i].id || same_text(
                    self.users[j].username.as_str(),
                    self.users[i].username.as_str(),
                ) {
                    assert(self@.users[j as int].id == self@.users[i as int].id
                        || self@.users[j as int].username == self@.users[i as int].username);
                    return false;
                }
                j += 1;
            }
            i += 1;
        }
        true
    }

    /// Whether no two tickets share an identifier.
    fn tickets_are_distinct(&self) -> (ok: bool)
        ensures
            ok == distinct_ticket_ids(self@.tickets),
    {
        let mut i: usize = 0;
        while i < self.tickets.len()
            invariant
                i <= self.tickets.len(),
                forall|a: int, b: int|
                    0 <= a < i && 0 <= b < i && a != b ==> (#[trigger] self@.tickets[a]).id != (
                    #[trigger] self@.tickets[b]).id,
            decreases self.tickets.len() - i,
        {
            let mut j: usize = 0;
            while j < i
                invariant
                    j <= i < self.tickets.len(),
                    forall|b: int|
                        0 <= b < j ==> (#[trigger] self@.tickets[b]).id
                            != self@.tickets[i as int].id,
                decreases i - j,
            {
                if self.tickets[j].id == self.tickets[i].id {
                    assert(self@.tickets[j as int].id == self@.tickets[i as int].id);
                    return false;
                }
                j += 1;
            }
            i += 1;
        }
        true
    }

    /// Whether the keys are unique, as every statement needs them to be.
    /// Tables that are only ever changed by statements stay so.
    pub fn is_well_formed(&self) -> (ok: bool)
        ensures
            ok == self@.wf(),
    {
        self.accounts_are_distinct() && self.tickets_are_distinct()
    }

    /// The row of the account with this identifier.
    pub fn user_position(&self, id: Id) -> (position: Option<usize>)
        ensures
            match position {
                Some(i) => i < self@.users.len() && self@.users[i as int].id == id,
                None => !has_user(self@.users, id),
            },
    {
        let mut i: usize = 0;
        while i < self.users.len()
            invariant
                i <= self.users.len(),
                forall|j: int| 0 <= j < i ==> (#[trigger] self@.users[j]).id != id,
            decreases self.users.len() - i,
        {
            if self.users[i].id == id {
                return Some(i);
            }
            i += 1;
        }
        None
    }

    /// The row of the account with this username.
    pub fn username_position(&self, username: &str) -> (position: Option<usize>)
        ensures
            match position {
                Some(i) => i < self@.users.len() && self@.users[i as int].username == username@,
                None => !has_username(self@.users, username@),
            },
    {
        let mut i: usize = 0;
        while i < self.users.len()
            invariant
                i <= self.users.len(),
                forall|j: int| 0 <= j < i ==> (#[trigger] self@.users[j]).username != username@,
            decreases self.users.len() - i,
        {
            if same_text(self.users[i].username.as_str(), username) {
                return Some(i);
            }
            i += 1;
        }
        None
    }

    /// The row of the ticket with this identifier.
    pub fn ticket_position(&self, id: Id) -> (position: Option<usize>)
        ensures
            match position {
                Some(i) => i < self@.tickets.len() && self@.tickets[i as int].id == id,
                None => !has_ticket(self@.tickets, id),
            },
    {
        let mut i: usize = 0;
        while i < self.tickets.len()
            invariant
                i <= self.tickets.len(),
                forall|j: int| 0 <= j < i ==> (#[trigger] self@.tickets[j]).id != id,
            decreases self.tickets.len() - i,
        {
            if self.tickets[i].id == id {
                return Some(i);
            }
            i += 1;
        }
        None
    }
}

} // verus!
