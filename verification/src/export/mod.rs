//! Rendering tickets for download.

use crate::database::ticket_views;
use crate::models::{id_text, shown_instant};
use crate::models::ticket::{
    status_name, TicketPublic, TicketPublicData, TicketView, TicketViewData,
};
use vstd::prelude::*;

pub mod csv;
pub mod pdf;

verus! {

/// A ticket as it is printed: the accounts by their usernames, the times
/// written out, and `null` for each field that is absent.
pub open spec fn printed(ticket: TicketPublicData) -> TicketViewData {
    TicketViewData {
        id: id_text(ticket.id.value),
        title: ticket.title,
        description: ticket.description,
        requester: ticket.requester.username,
        status: status_name(ticket.status),
        closed_by: match ticket.closed_by {
            Some(closed_by) => closed_by.username,
            None => "null"@,
        },
        solution: match ticket.solution {
            Some(solution) => solution,
            None => "null"@,
        },
        created_at: shown_instant(ticket.created_at),
        updated_at: shown_instant(ticket.updated_at),
        closed_at: match ticket.closed_at {
            Some(closed_at) => shown_instant(closed_at),
            None => "null"@,
        },
    }
}

/// The tickets as they are printed.
pub open spec fn printed_all(tickets: Seq<TicketPublicData>) -> Seq<TicketViewData> {
    Seq::new(tickets.len(), |i: int| printed(tickets[i]))
}

/// The views of tickets ready for export.
pub open spec fn print_views(tickets: Seq<TicketView>) -> Seq<TicketViewData> {
    Seq::new(tickets.len(), |i: int| tickets[i]@)
}

impl TicketView {
    /// Makes a ticket ready for export.
    pub fn new(ticket: &TicketPublic) -> (view: TicketView)
        ensures
            view@ == printed(ticket@),
    {
        TicketView {
            id: ticket.id.to_string(),
            title: ticket.title.clone(),
            description: ticket.description.clone(),
            requester: ticket.requester.username.clone(),
            status: ticket.status.to_string(),
            closed_by: match &ticket.closed_by {
                Some(closed_by) => closed_by.username.clone(),
                None => "null".to_string(),
            },
            solution: match &ticket.solution {
                Some(solution) => solution.clone(),
                None => "null".to_string(),
            },
            created_at: ticket.created_at.to_string(),
            updated_at: ticket.updated_at.to_string(),
            closed_at: match ticket.closed_at {
                Some(closed_at) => closed_at.to_string(),
                None => "null".to_string(),
            },
        }
    }

    /// Makes tickets ready for export.
    pub fn new_all(tickets: &Vec<TicketPublic>) -> (views: Vec<TicketView>)
        ensures
            print_views(views@) == printed_all(ticket_views(tickets@)),
    {
        let mut views: Vec<TicketView> = Vec::new();
        let mut i: usize = 0;
        while i < tickets.len()
            invariant
                i <= tickets.len(),
                views@.len() == i,
                forall|j: int| 0 <= j < i ==> (#[trigger] views@[j])@ == printed(tickets@[j]@),
            decreases tickets.len() - i,
        {
            views.push(TicketView::new(&tickets[i]));
            i += 1;
        }
        assert(print_views(views@) =~= printed_all(ticket_views(tickets@)));
        views
    }
}

} // verus!
