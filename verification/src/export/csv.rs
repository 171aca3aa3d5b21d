//! Tickets as CSV: a header line, then one line for each ticket.

use crate::errors::api_error::ApiError;
use crate::errors::export_error::ExportError;
use crate::export::print_views;
use crate::models::ticket::{TicketView, TicketViewData};
use vstd::prelude::*;

verus! {

/// The fields of each record.
pub open spec fn records_view(records: Seq<Vec<String>>) -> Seq<Seq<Seq<char>>> {
    Seq::new(records.len(), |i: int| Seq::new(records[i]@.len(), |j: int| records[i]@[j]@))
}

/// The bytes of the CSV file that holds these records, with the quoting that
/// the `csv` crate applies where a field needs it; `None` if the writer
/// refuses the records. It is not restated here.
pub uninterp spec fn csv_file(records: Seq<Seq<Seq<char>>>) -> Option<Seq<u8>>;

/// Whether all records have as many fields as the first.
pub open spec fn same_length(records: Seq<Seq<Seq<char>>>) -> bool {
    forall|i: int| 0 <= i < records.len() ==> (#[trigger] records[i]).len() == records[0].len()
}

/// Writes the records with a `csv::Writer` into memory: a writer built by
/// `WriterBuilder::new().has_headers(true)` over an empty buffer,
/// `write_record` for each record in order, then `into_inner`, which
/// flushes. Returns the bytes, or the writer's description of why it failed.
/// The contract names the bytes: the same records always give the same
/// ones. It also says when the writer succeeds: writing into memory cannot
/// fail, so the only records that it refuses are records of unequal length.
#[verifier::external_body]
fn write_records(records: &Vec<Vec<String>>) -> (written: Result<Vec<u8>, String>)
    ensures
        match written {
            Ok(bytes) => csv_file(records_view(records@)) == Some(bytes@),
            Err(_) => csv_file(records_view(records@)) is None,
        },
        same_length(records_view(records@)) ==> written is Ok,
{
    let mut writer = csv::WriterBuilder::new().has_headers(true).from_writer(Vec::new());
    for record in records.iter() {
        writer.write_record(record).map_err(|error| error.to_string())?;
    }
    writer.into_inner().map_err(|error| error.to_string())
}

/// The header: the names of the ten columns.
pub open spec fn header() -> Seq<Seq<char>> {
    seq![
        "Ticket"@,
        "Updated at"@,
        "Requester"@,
        "Created at"@,
        "Status"@,
        "Title"@,
        "Description"@,
        "Closed by"@,
        "Closed at"@,
        "Solution"@,
    ]
}

/// The record of a ticket: its ten fields in the order of the header.
pub open spec fn record_of(ticket: TicketViewData) -> Seq<Seq<char>> {
    seq![
        ticket.id,
        ticket.updated_at,
        ticket.requester,
        ticket.created_at,
        ticket.status,
        ticket.title,
        ticket.description,
        ticket.closed_by,
        ticket.closed_at,
        ticket.solution,
    ]
}

/// The records of a file of tickets: the header, then the tickets in order.
pub open spec fn records_of(tickets: Seq<TicketViewData>) -> Seq<Seq<Seq<char>>> {
    Seq::new(
        tickets.len() + 1,
        |i: int|
            if i == 0 {
                header()
            } else {
                record_of(tickets[i - 1])
            },
    )
}

/// The header record.
pub fn header_record() -> (record: Vec<String>)
    ensures
        Seq::new(record@.len(), |j: int| record@[j]@) == header(),
{
    let mut record: Vec<String> = Vec::new();
    record.push("Ticket".to_string());
    record.push("Updated at".to_string());
    record.push("Requester".to_string());
    record.push("Created at".to_string());
    record.push("Status".to_string());
    record.push("Title".to_string());
    record.push("Description".to_string());
    record.push("Closed by".to_string());
    record.push("Closed at".to_string());
    record.push("Solution".to_string());
    assert(Seq::new(record@.len(), |j: int| record@[j]@) =~= header());
    record
}

/// The record of a ticket.
pub fn ticket_record(ticket: &TicketView) -> (record: Vec<String>)
    ensures
        Seq::new(record@.len(), |j: int| record@[j]@) == record_of(ticket@),
{
    let mut record: Vec<String> = Vec::new();
    record.push(ticket.id.clone());
    record.push(ticket.updated_at.clone());
    record.push(ticket.requester.clone());
    record.push(ticket.created_at.clone());
    record.push(ticket.status.clone());
    record.push(ticket.title.clone());
    record.push(ticket.description.clone());
    record.push(ticket.closed_by.clone());
    record.push(ticket.closed_at.clone());
    record.push(ticket.solution.clone());
    assert(Seq::new(record@.len(), |j: int| record@[j]@) =~= record_of(ticket@));
    record
}

/// What the writer's outcome becomes: the bytes, or an `ExportError` that
/// carries the writer's words.
pub fn csv_outcome(written: Result<Vec<u8>, String>) -> (file: Result<Vec<u8>, ApiError>)
    ensures
        match written {
            Ok(bytes) => file == Ok::<Vec<u8>, ApiError>(bytes),
            Err(cause) => file matches Err(ApiError::ExportError(ExportError::CSVError(reason)))
                && reason == cause,
        },
{
    match written {
        Ok(bytes) => Ok(bytes),
        Err(cause) => Err(ApiError::ExportError(ExportError::CSVError(cause))),
    }
}

/// The records of a file of tickets all have ten fields.
pub proof fn lemma_records_have_ten_fields(tickets: Seq<TicketViewData>)
    ensures
        same_length(records_of(tickets)),
        forall|i: int| 0 <= i < records_of(tickets).len() ==> (#[trigger] records_of(tickets)[i]).len()
            == 10,
{
}

/// Renders tickets as one CSV file: the header, then a line for each ticket.
/// Header and lines have ten fields each, so the writer takes them.
pub fn create_tickets_csv(tickets: Vec<TicketView>) -> (file: Result<Vec<u8>, ApiError>)
    ensures
        file matches Ok(written) && csv_file(records_of(print_views(tickets@))) == Some(written@),
{
    let mut records: Vec<Vec<String>> = Vec::new();
    records.push(header_record());
    let mut i: usize = 0;
    while i < tickets.len()
        invariant
            i <= tickets.len(),
            records@.len() == i + 1,
            forall|k: int|
                0 <= k <= i ==> Seq::new(
                    (#[trigger] records@[k])@.len(),
                    |j: int| records@[k]@[j]@,
                ) == records_of(print_views(tickets@))[k],
        decreases tickets.len() - i,
    {
        records.push(ticket_record(&tickets[i]));
        i += 1;
    }
    proof {
        assert(records_view(records@) =~= records_of(print_views(tickets@)));
        lemma_records_have_ten_fields(print_views(tickets@));
    }
    csv_outcome(write_records(&records))
}

/// Renders one ticket as a CSV file: the header and one line.
pub fn create_ticket_csv(ticket: TicketView) -> (file: Result<Vec<u8>, ApiError>)
    ensures
        file matches Ok(written) && csv_file(records_of(seq![ticket@])) == Some(written@),
{
    let mut tickets: Vec<TicketView> = Vec::new();
    tickets.push(ticket);
    assert(print_views(tickets@) =~= seq![ticket@]);
    create_tickets_csv(tickets)
}

} // verus!
