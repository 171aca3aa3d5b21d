//! The endpoints that hand out tickets as files.

use crate::database::repositories::ticket_repository::TicketRepositoryImpl;
use crate::database::{shown_all, shown_with_id, ticket_views, AppState};
use crate::errors::api_error::ApiError;
use crate::errors::export_error::ExportError;
use crate::export::csv::{create_tickets_csv, csv_file, records_of};
use crate::export::pdf::{create_ticket_pdf, ticket_pdf};
use crate::export::{printed, printed_all};
use crate::models::Id;
use crate::models::auth::access::require_active;
use crate::models::ticket::{TicketPublic, TicketPublicData, TicketView};
use crate::models::user::{Status, User};
use vstd::prelude::*;

verus! {

/// A file to download: what goes into the `Content-Type` and
/// `Content-Disposition` headers, and the body.
#[derive(Clone, Debug, PartialEq, Eq)]
pub struct Download {
    pub content_type: String,
    pub content_disposition: String,
    pub body: Vec<u8>,
}

/// Whether a download is this file of this type under this name.
pub open spec fn is_download(
    download: Download,
    content_type: Seq<char>,
    content_disposition: Seq<char>,
    body: Seq<u8>,
) -> bool {
    &&& download.content_type@ == content_type
    &&& download.content_disposition@ == content_disposition
    &&& download.body@ == body
}

/// What a request for the PDF of a ticket is answered with, once the ticket
/// is at hand.
pub open spec fn pdf_answered(ticket: TicketPublicData, file: Result<Download, ApiError>) -> bool {
    match ticket_pdf(printed(ticket)) {
        Some(bytes) => file matches Ok(download) && is_download(
            download,
            "application/pdf; charset=utf-8"@,
            "attachment; filename=\"Ticket.pdf\""@,
            bytes,
        ),
        None => file matches Err(ApiError::ExportError(ExportError::PDFError(_))),
    }
}

/// What a request for a CSV file of tickets is answered with, once the
/// tickets are at hand: the file, which the writer never refuses.
pub open spec fn csv_answered(
    tickets: Seq<TicketPublicData>,
    name: Seq<char>,
    file: Result<Download, ApiError>,
) -> bool {
    &&& file matches Ok(download)
    &&& download.content_type@ == "application/csv; charset=utf-8"@
    &&& download.content_disposition@ == name
    &&& csv_file(records_of(printed_all(tickets))) == Some(download.body@)
}

/// Renders a ticket as a PDF to download.
pub fn pdf_download(ticket: &TicketPublic) -> (file: Result<Download, ApiError>)
    ensures
        pdf_answered(ticket@, file),
{
    match create_ticket_pdf(TicketView::new(ticket)) {
        Ok(body) => Ok(
            Download {
                content_type: "application/pdf; charset=utf-8".to_string(),
                content_disposition: "attachment; filename=\"Ticket.pdf\"".to_string(),
                body,
            },
        ),
        Err(error) => Err(error),
    }
}

/// Renders tickets as a CSV file to download, under the given
/// `Content-Disposition`.
pub fn csv_download(tickets: &Vec<TicketPublic>, content_disposition: &str) -> (file: Result<
    Download,
    ApiError,
>)
    ensures
        csv_answered(ticket_views(tickets@), content_disposition@, file),
{
    match create_tickets_csv(TicketView::new_all(tickets)) {
        Ok(body) => Ok(
            Download {
                content_type: "application/csv; charset=utf-8".to_string(),
                content_disposition: content_disposition.to_string(),
                body,
            },
        ),
        Err(error) => Err(error),
    }
}

/// `GET /export/pdf/ticket/{id}`: a ticket as a PDF.
pub fn ticket_to_pdf(state: &AppState, current_user: &User, id: Id) -> (file: Result<
    Download,
    ApiError,
>)
    requires
        state.db@.wf(),
    ensures
        current_user.status != Status::Active ==> file matches Err(ApiError::Unauthorized),
        current_user.status == Status::Active ==> (match shown_with_id(state.db@, id) {
            Some(ticket) => pdf_answered(ticket, file),
            None => file matches Err(ApiError::NotFound),
        }),
{
    match require_active(current_user) {
        Ok(()) => {},
        Err(error) => {
            return Err(error);
        },
    }
    match TicketRepositoryImpl::find_by_id(state, id) {
        Ok(Some(ticket)) => pdf_download(&ticket),
        Ok(None) => Err(ApiError::NotFound),
        Err(error) => Err(error),
    }
}

/// `GET /export/csv/ticket/{id}`: a ticket as a CSV file.
pub fn ticket_to_csv(state: &AppState, current_user: &User, id: Id) -> (file: Result<
    Download,
    ApiError,
>)
    requires
        state.db@.wf(),
    ensures
        current_user.status != Status::Active ==> file matches Err(ApiError::Unauthorized),
        current_user.status == Status::Active ==> (match shown_with_id(state.db@, id) {
            Some(ticket) => csv_answered(
                seq![ticket],
                "attachment; filename=\"Ticket.csv\""@,
                file,
            ),
            None => file matches Err(ApiError::NotFound),
        }),
{
    match require_active(current_user) {
        Ok(()) => {},
        Err(error) => {
            return Err(error);
        },
    }
    match TicketRepositoryImpl::find_by_id(state, id) {
        Ok(Some(ticket)) => {
            let mut tickets: Vec<TicketPublic> = Vec::new();
            let ghost shown = ticket@;
            tickets.push(ticket);
            assert(ticket_views(tickets@) =~= seq![shown]);
            csv_download(&tickets, "attachment; filename=\"Ticket.csv\"")
        },
        Ok(None) => Err(ApiError::NotFound),
        Err(error) => Err(error),
    }
}

/// `GET /export/csv/tickets`: all tickets as one CSV file.
pub fn tickets_to_csv(state: &AppState, current_user: &User) -> (file: Result<Download, ApiError>)
    requires
        state.db@.wf(),
    ensures
        current_user.status != Status::Active ==> file matches Err(ApiError::Unauthorized),
        current_user.status == Status::Active ==> csv_answered(
            shown_all(state.db@.users, state.db@.tickets),
            "attachment; filename=\"Tickets.csv\""@,
            file,
        ),
{
    match require_active(current_user) {
        Ok(()) => {},
        Err(error) => {
            return Err(error);
        },
    }
    match TicketRepositoryImpl::find_all(state) {
        Ok(tickets) => csv_download(&tickets, "attachment; filename=\"Tickets.csv\""),
        Err(error) => Err(error),
    }
}

} // verus!
