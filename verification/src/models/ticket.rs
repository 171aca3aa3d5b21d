//! Tickets, and the requests that create and change them.

use crate::models::{clone_text, same_text, text_of, Id, Timestamp};
use crate::models::user::UserData;
use crate::validations::{broken, ValidationErrors};
use crate::validations::rules::{
    has_length_between, has_optional_length_between, length_between, optional_length_between,
};
use vstd::prelude::*;

verus! {

/// Where a ticket stands.
#[derive(Clone, Copy, Debug, PartialEq, Eq, Structural)]
pub enum TicketStatus {
    Open,
    InProgress,
    Closed,
    Reopened,
    Paused,
    Cancelled,
}

/// The name of each status.
pub open spec fn status_name(status: TicketStatus) -> Seq<char> {
    match status {
        TicketStatus::Open => "Open"@,
        TicketStatus::InProgress => "InProgress"@,
        TicketStatus::Closed => "Closed"@,
        TicketStatus::Reopened => "Reopened"@,
        TicketStatus::Paused => "Paused"@,
        TicketStatus::Cancelled => "Cancelled"@,
    }
}

/// A status that ends work on a ticket: `Closed` or `Cancelled`.
pub open spec fn terminal(status: TicketStatus) -> bool {
    status == TicketStatus::Closed || status == TicketStatus::Cancelled
}

impl TicketStatus {
    /// The name of this status.
    pub fn to_string(&self) -> (name: String)
        ensures
            name@ == status_name(*self),
    {
        match self {
            TicketStatus::Open => "Open".to_string(),
            TicketStatus::InProgress => "InProgress".to_string(),
            TicketStatus::Closed => "Closed".to_string(),
            TicketStatus::Reopened => "Reopened".to_string(),
            TicketStatus::Paused => "Paused".to_string(),
            TicketStatus::Cancelled => "Cancelled".to_string(),
        }
    }

    /// Whether this status ends work on a ticket.
    pub fn is_terminal(&self) -> (yes: bool)
        ensures
            yes == terminal(*self),
    {
        *self == TicketStatus::Closed || *self == TicketStatus::Cancelled
    }
}

/// A ticket as it is stored.
#[derive(Clone, Debug, PartialEq, Eq)]
pub struct Ticket {
    pub id: Id,
    pub title: String,
    pub description: String,
    pub requester: Id,
    pub status: TicketStatus,
    pub closed_by: Option<Id>,
    pub solution: Option<String>,
    pub created_at: Timestamp,
    pub updated_at: Timestamp,
    pub closed_at: Option<Timestamp>,
}

/// What a stored ticket holds.
pub struct TicketData {
    pub id: Id,
    pub title: Seq<char>,
    pub description: Seq<char>,
    pub requester: Id,
    pub status: TicketStatus,
    pub closed_by: Option<Id>,
    pub solution: Option<Seq<char>>,
    pub created_at: Timestamp,
    pub updated_at: Timestamp,
    pub closed_at: Option<Timestamp>,
}

impl View for Ticket {
    type V = TicketData;

    open spec fn view(&self) -> TicketData {
        TicketData {
            id: self.id,
            title: self.title@,
            description: self.description@,
            requester: self.requester,
            status: self.status,
            closed_by: self.closed_by,
            solution: text_of(self.solution),
            created_at: self.created_at,
            updated_at: self.updated_at,
            closed_at: self.closed_at,
        }
    }
}

/// A ticket as it is opened at the moment `now` under the identifier `id`:
/// open, and neither closed nor solved.
pub open spec fn new_ticket(
    id: Id,
    title: Seq<char>,
    description: Seq<char>,
    requester: Id,
    now: Timestamp,
) -> TicketData {
    TicketData {
        id,
        title,
        description,
        requester,
        status: TicketStatus::Open,
        closed_by: None,
        solution: None,
        created_at: now,
        updated_at: now,
        closed_at: None,
    }
}

impl Ticket {
    /// A new ticket with a fresh time-ordered identifier, created now: open,
    /// and neither closed nor solved.
    pub fn new(title: &str, description: &str, requester: Id) -> (ticket: Ticket)
        ensures
            ticket@.title == title@,
            ticket@.description == description@,
            ticket.requester == requester,
            ticket.status == TicketStatus::Open,
            ticket.closed_by is None,
            ticket.solution is None,
            ticket.closed_at is None,
    {
        Ticket {
            id: Id::time_ordered(),
            title: title.to_string(),
            description: description.to_string(),
            requester,
            status: TicketStatus::Open,
            closed_by: None,
            solution: None,
            created_at: Timestamp::now(),
            updated_at: Timestamp::now(),
            closed_at: None,
        }
    }

    /// A new ticket under a given identifier, created at a given moment.
    pub fn new_at(title: &str, description: &str, requester: Id, id: Id, now: Timestamp) -> (ticket:
        Ticket)
        ensures
            ticket@ == new_ticket(id, title@, description@, requester, now),
    {
        Ticket {
            id,
            title: title.to_string(),
            description: description.to_string(),
            requester,
            status: TicketStatus::Open,
            closed_by: None,
            solution: None,
            created_at: now,
            updated_at: now,
            closed_at: None,
        }
    }

    /// A copy of this ticket.
    pub fn duplicate(&self) -> (copy: Ticket)
        ensures
            copy@ == self@,
    {
        Ticket {
            id: self.id,
            title: self.title.clone(),
            description: self.description.clone(),
            requester: self.requester,
            status: self.status,
            closed_by: self.closed_by,
            solution: clone_text(&self.solution),
            created_at: self.created_at,
            updated_at: self.updated_at,
            closed_at: self.closed_at,
        }
    }
}

/// The account behind a ticket, as the ticket shows it.
#[derive(Clone, Debug, PartialEq, Eq)]
pub struct RequesterInfo {
    pub id: Id,
    pub username: String,
    pub email: Option<String>,
    pub first_name: Option<String>,
    pub last_name: Option<String>,
}

/// What a shown account holds.
pub struct RequesterData {
    pub id: Id,
    pub username: Seq<char>,
    pub email: Option<Seq<char>>,
    pub first_name: Option<Seq<char>>,
    pub last_name: Option<Seq<char>>,
}

impl View for RequesterInfo {
    type V = RequesterData;

    open spec fn view(&self) -> RequesterData {
        RequesterData {
            id: self.id,
            username: self.username@,
            email: text_of(self.email),
            first_name: text_of(self.first_name),
            last_name: text_of(self.last_name),
        }
    }
}

/// What a ticket shows of an account.
pub open spec fn requester_part(user: UserData) -> RequesterData {
    RequesterData {
        id: user.id,
        username: user.username,
        email: user.email,
        first_name: user.first_name,
        last_name: user.last_name,
    }
}

/// The accounts behind an optional reference.
pub open spec fn requester_of(info: Option<RequesterInfo>) -> Option<RequesterData> {
    match info {
        Some(info) => Some(info@),
        None => None,
    }
}

/// A ticket as it is shown: the accounts it refers to are resolved.
#[derive(Clone, Debug, PartialEq, Eq)]
pub struct TicketPublic {
    pub id: Id,
    pub title: String,
    pub description: String,
    pub status: TicketStatus,
    pub solution: Option<String>,
    pub created_at: Timestamp,
    pub updated_at: Timestamp,
    pub closed_at: Option<Timestamp>,
    pub requester: RequesterInfo,
    pub closed_by: Option<RequesterInfo>,
}

/// What a shown ticket holds.
pub struct TicketPublicData {
    pub id: Id,
    pub title: Seq<char>,
    pub description: Seq<char>,
    pub status: TicketStatus,
    pub solution: Option<Seq<char>>,
    pub created_at: Timestamp,
    pub updated_at: Timestamp,
    pub closed_at: Option<Timestamp>,
    pub requester: RequesterData,
    pub closed_by: Option<RequesterData>,
}

impl View for TicketPublic {
    type V = TicketPublicData;

    open spec fn view(&self) -> TicketPublicData {
        TicketPublicData {
            id: self.id,
            title: self.title@,
            description: self.description@,
            status: self.status,
            solution: text_of(self.solution),
            created_at: self.created_at,
            updated_at: self.updated_at,
            closed_at: self.closed_at,
            requester: self.requester@,
            closed_by: requester_of(self.closed_by),
        }
    }
}

/// How a stored ticket is shown, given the accounts it refers to.
pub open spec fn shown_ticket(
    ticket: TicketData,
    requester: RequesterData,
    closed_by: Option<RequesterData>,
) -> TicketPublicData {
    TicketPublicData {
        id: ticket.id,
        title: ticket.title,
        description: ticket.description,
        status: ticket.status,
        solution: ticket.solution,
        created_at: ticket.created_at,
        updated_at: ticket.updated_at,
        closed_at: ticket.closed_at,
        requester,
        closed_by,
    }
}

/// A ticket ready for export: every field is the text to print.
#[derive(Clone, Debug, PartialEq, Eq)]
pub struct TicketView {
    pub id: String,
    pub title: String,
    pub description: String,
    pub requester: String,
    pub status: String,
    pub closed_by: String,
    pub solution: String,
    pub created_at: String,
    pub updated_at: String,
    pub closed_at: String,
}

/// The texts of a ticket ready for export.
pub struct TicketViewData {
    pub id: Seq<char>,
    pub title: Seq<char>,
    pub description: Seq<char>,
    pub requester: Seq<char>,
    pub status: Seq<char>,
    pub closed_by: Seq<char>,
    pub solution: Seq<char>,
    pub created_at: Seq<char>,
    pub updated_at: Seq<char>,
    pub closed_at: Seq<char>,
}

impl View for TicketView {
    type V = TicketViewData;

    open spec fn view(&self) -> TicketViewData {
        TicketViewData {
            id: self.id@,
            title: self.title@,
            description: self.description@,
            requester: self.requester@,
            status: self.status@,
            closed_by: self.closed_by@,
            solution: self.solution@,
            created_at: self.created_at@,
            updated_at: self.updated_at@,
            closed_at: self.closed_at@,
        }
    }
}

/// What it takes to open a ticket. The requester is a username.
#[derive(Clone, Debug, PartialEq, Eq)]
pub struct CreateTicketPayload {
    pub title: String,
    pub description: String,
    pub requester: Option<String>,
}

impl CreateTicketPayload {
    /// The rules that this request breaks, in order: title of 3 to 50
    /// characters, description of 10 to 3000 characters.
    pub open spec fn broken_rules(&self) -> Seq<(Seq<char>, Seq<char>)> {
        broken(length_between(self.title@, 3, 50), "title"@, "Title must be between 3 and 50 chars."@)
            + broken(
            length_between(self.description@, 10, 3000),
            "description"@,
            "Description must be between 3 and 3000 chars."@,
        )
    }

    /// Accepts the request if it breaks no rule, and lists the broken rules
    /// otherwise.
    pub fn validate(&self) -> (verdict: Result<(), ValidationErrors>)
        ensures
            verdict is Ok <==> self.broken_rules().len() == 0,
            verdict matches Err(errors) ==> errors@ == self.broken_rules(),
    {
        let mut errors = ValidationErrors::new();
        errors.check(
            has_length_between(self.title.as_str(), 3, 50),
            "title",
            "Title must be between 3 and 50 chars.",
        );
        errors.check(
            has_length_between(self.description.as_str(), 10, 3000),
            "description",
            "Description must be between 3 and 3000 chars.",
        );
        if errors.is_empty() {
            Ok(())
        } else {
            Err(errors)
        }
    }
}

/// A change to a ticket: only the fields that are present are written.
#[derive(Clone, Debug, PartialEq, Eq)]
pub struct UpdateTicketPayload {
    pub id: Id,
    pub title: Option<String>,
    pub description: Option<String>,
    pub requester: Option<Id>,
    pub status: Option<TicketStatus>,
    pub closed_by: Option<Id>,
    pub solution: Option<String>,
}

impl UpdateTicketPayload {
    /// The rules that this change breaks, in order: title of 3 to 50
    /// characters, description and solution of 10 to 3000 characters each. A
    /// field that is absent breaks none.
    pub open spec fn broken_rules(&self) -> Seq<(Seq<char>, Seq<char>)> {
        broken(
            optional_length_between(text_of(self.title), 3, 50),
            "title"@,
            "Title must be between 3 and 50 chars."@,
        ) + broken(
            optional_length_between(text_of(self.description), 10, 3000),
            "description"@,
            "Description must be between 10 and 3000 chars."@,
        ) + broken(
            optional_length_between(text_of(self.solution), 10, 3000),
            "solution"@,
            "Description must be between 10 and 3000 chars."@,
        )
    }

    /// Accepts the change if it breaks no rule, and lists the broken rules
    /// otherwise.
    pub fn validate(&self) -> (verdict: Result<(), ValidationErrors>)
        ensures
            verdict is Ok <==> self.broken_rules().len() == 0,
            verdict matches Err(errors) ==> errors@ == self.broken_rules(),
    {
        let mut errors = ValidationErrors::new();
        errors.check(
            has_optional_length_between(&self.title, 3, 50),
            "title",
            "Title must be between 3 and 50 chars.",
        );
        errors.check(
            has_optional_length_between(&self.description, 10, 3000),
            "description",
            "Description must be between 10 and 3000 chars.",
        );
        errors.check(
            has_optional_length_between(&self.solution, 10, 3000),
            "solution",
            "Description must be between 10 and 3000 chars.",
        );
        if errors.is_empty() {
            Ok(())
        } else {
            Err(errors)
        }
    }

    /// Whether the change names no field at all.
    pub open spec fn is_empty(&self) -> bool {
        &&& self.title is None
        &&& self.description is None
        &&& self.requester is None
        &&& self.status is None
        &&& self.closed_by is None
        &&& self.solution is None
    }
}

/// A request to open a ticket breaks no rule exactly if each rule holds.
pub proof fn lemma_create_ticket_rules(payload: CreateTicketPayload)
    ensures
        payload.broken_rules().len() == 0 <==> length_between(payload.title@, 3, 50)
            && length_between(payload.description@, 10, 3000),
{
}

/// A change to a ticket breaks no rule exactly if each rule holds.
pub proof fn lemma_update_ticket_rules(payload: UpdateTicketPayload)
    ensures
        payload.broken_rules().len() == 0 <==> optional_length_between(
            text_of(payload.title),
            3,
            50,
        ) && optional_length_between(text_of(payload.description), 10, 3000)
            && optional_length_between(text_of(payload.solution), 10, 3000),
{
}

/// The name of each status as the store and the wire carry it: in lower
/// case.
pub open spec fn status_key(status: TicketStatus) -> Seq<char> {
    match status {
        TicketStatus::Open => "open"@,
        TicketStatus::InProgress => "inprogress"@,
        TicketStatus::Closed => "closed"@,
        TicketStatus::Reopened => "reopened"@,
        TicketStatus::Paused => "paused"@,
        TicketStatus::Cancelled => "cancelled"@,
    }
}

/// The status that a lower-case name stands for.
pub open spec fn status_keyed(key: Seq<char>) -> Option<TicketStatus> {
    if key == "open"@ {
        Some(TicketStatus::Open)
    } else if key == "inprogress"@ {
        Some(TicketStatus::InProgress)
    } else if key == "closed"@ {
        Some(TicketStatus::Closed)
    } else if key == "reopened"@ {
        Some(TicketStatus::Reopened)
    } else if key == "paused"@ {
        Some(TicketStatus::Paused)
    } else if key == "cancelled"@ {
        Some(TicketStatus::Cancelled)
    } else {
        None
    }
}

impl TicketStatus {
    /// The name of this status in lower case.
    pub fn key(&self) -> (key: String)
        ensures
            key@ == status_key(*self),
    {
        match self {
            TicketStatus::Open => "open".to_string(),
            TicketStatus::InProgress => "inprogress".to_string(),
            TicketStatus::Closed => "closed".to_string(),
            TicketStatus::Reopened => "reopened".to_string(),
            TicketStatus::Paused => "paused".to_string(),
            TicketStatus::Cancelled => "cancelled".to_string(),
        }
    }

    /// Reads a status from its name in lower case.
    pub fn parse(key: &str) -> (status: Option<TicketStatus>)
        ensures
            status == status_keyed(key@),
    {
        if same_text(key, "open") {
            Some(TicketStatus::Open)
        } else if same_text(key, "inprogress") {
            Some(TicketStatus::InProgress)
        } else if same_text(key, "closed") {
            Some(TicketStatus::Closed)
        } else if same_text(key, "reopened") {
            Some(TicketStatus::Reopened)
        } else if same_text(key, "paused") {
            Some(TicketStatus::Paused)
        } else if same_text(key, "cancelled") {
            Some(TicketStatus::Cancelled)
        } else {
            None
        }
    }
}

/// Every status is read back from its name in lower case.
pub proof fn lemma_status_reads_back(status: TicketStatus)
    ensures
        status_keyed(status_key(status)) == Some(status),
{
    reveal_strlit("open");
    reveal_strlit("inprogress");
    reveal_strlit("closed");
    reveal_strlit("reopened");
    reveal_strlit("paused");
    reveal_strlit("cancelled");
    assert("open"@.len() == 4);
    assert("inprogress"@.len() == 10);
    assert("closed"@[0] == 'c' && "closed"@[1] == 'l');
    assert("closed"@.len() == 6);
    assert("reopened"@.len() == 8);
    assert("paused"@[0] == 'p');
    assert("paused"@.len() == 6);
    assert("cancelled"@.len() == 9);
}

} // verus!
