//! A ticket as a one-page PDF: labels and values at fixed places.
//!
//! The page is described here, down to the operations of its content stream
//! and the objects of the file; `lopdf` turns the description into bytes.

use crate::errors::api_error::ApiError;
use crate::errors::export_error::ExportError;
use crate::models::ticket::{TicketView, TicketViewData};
use lopdf::{Dictionary, Document, Object, Stream};
use vstd::prelude::*;

verus! {

/// The two typefaces of the page.
#[derive(Clone, Copy, Debug, PartialEq, Eq, Structural)]
pub enum Font {
    /// Arial, named `F1` on the page.
    Regular,
    /// Arial-Bold, named `F2` on the page.
    Bold,
}

/// The name of each typeface in the resources of the page.
pub open spec fn font_name(font: Font) -> Seq<char> {
    match font {
        Font::Regular => "F1"@,
        Font::Bold => "F2"@,
    }
}

/// One line of text on the page. The place is in points from the lower left
/// corner.
#[derive(Clone, Debug, PartialEq, Eq)]
pub struct TextRun {
    pub font: Font,
    pub size: i64,
    pub x: i64,
    pub y: i64,
    pub text: String,
}

/// What a line of text holds.
pub struct TextRunData {
    pub font: Font,
    pub size: i64,
    pub x: i64,
    pub y: i64,
    pub text: Seq<char>,
}

impl View for TextRun {
    type V = TextRunData;

    open spec fn view(&self) -> TextRunData {
        TextRunData { font: self.font, size: self.size, x: self.x, y: self.y, text: self.text@ }
    }
}

/// The views of lines of text.
pub open spec fn run_views(runs: Seq<TextRun>) -> Seq<TextRunData> {
    Seq::new(runs.len(), |i: int| runs[i]@)
}

/// A line of text.
pub open spec fn run(font: Font, size: i64, x: i64, y: i64, text: Seq<char>) -> TextRunData {
    TextRunData { font, size, x, y, text }
}

/// The page of a ticket: for each of the ten fields a label in bold and the
/// value beside or below it, top to bottom.
pub open spec fn ticket_runs(ticket: TicketViewData) -> Seq<TextRunData> {
    seq![
        run(Font::Bold, 10, 400, 820, "Updated at:"@),
        run(Font::Regular, 10, 460, 820, ticket.updated_at),
        run(Font::Regular, 16, 50, 785, "Ticket"@),
        run(Font::Bold, 17, 100, 785, ticket.id),
        run(Font::Bold, 12, 50, 750, "Requester:"@),
        run(Font::Regular, 12, 120, 750, ticket.requester),
        run(Font::Bold, 12, 50, 700, "Created at:"@),
        run(Font::Regular, 12, 120, 700, ticket.created_at),
        run(Font::Bold, 12, 375, 750, "Status:"@),
        run(Font::Regular, 12, 420, 750, ticket.status),
        run(Font::Bold, 12, 50, 720, "Title:"@),
        run(Font::Regular, 12, 86, 720, ticket.title),
        run(Font::Bold, 12, 50, 675, "Description:"@),
        run(Font::Regular, 11, 50, 660, ticket.description),
        run(Font::Bold, 12, 50, 560, "Closed by:"@),
        run(Font::Regular, 12, 120, 560, ticket.closed_by),
        run(Font::Bold, 12, 375, 560, "Closed at:"@),
        run(Font::Regular, 12, 440, 560, ticket.closed_at),
        run(Font::Bold, 12, 50, 540, "Solution:"@),
        run(Font::Regular, 11, 110, 540, ticket.solution),
    ]
}

/// Makes a line of text.
fn text_run(font: Font, size: i64, x: i64, y: i64, text: &str) -> (made: TextRun)
    ensures
        made@ == run(font, size, x, y, text@),
{
    TextRun { font, size, x, y, text: text.to_string() }
}

/// Lays a ticket out on the page.
pub fn ticket_layout(ticket: &TicketView) -> (runs: Vec<TextRun>)
    ensures
        run_views(runs@) == ticket_runs(ticket@),
{
    let mut runs: Vec<TextRun> = Vec::new();
    runs.push(text_run(Font::Bold, 10, 400, 820, "Updated at:"));
    runs.push(text_run(Font::Regular, 10, 460, 820, ticket.updated_at.as_str()));
    runs.push(text_run(Font::Regular, 16, 50, 785, "Ticket"));
    runs.push(text_run(Font::Bold, 17, 100, 785, ticket.id.as_str()));
    runs.push(text_run(Font::Bold, 12, 50, 750, "Requester:"));
    runs.push(text_run(Font::Regular, 12, 120, 750, ticket.requester.as_str()));
    runs.push(text_run(Font::Bold, 12, 50, 700, "Created at:"));
    runs.push(text_run(Font::Regular, 12, 120, 700, ticket.created_at.as_str()));
    runs.push(text_run(Font::Bold, 12, 375, 750, "Status:"));
    runs.push(text_run(Font::Regular, 12, 420, 750, ticket.status.as_str()));
    runs.push(text_run(Font::Bold, 12, 50, 720, "Title:"));
    runs.push(text_run(Font::Regular, 12, 86, 720, ticket.title.as_str()));
    runs.push(text_run(Font::Bold, 12, 50, 675, "Description:"));
    runs.push(text_run(Font::Regular, 11, 50, 660, ticket.description.as_str()));
    runs.push(text_run(Font::Bold, 12, 50, 560, "Closed by:"));
    runs.push(text_run(Font::Regular, 12, 120, 560, ticket.closed_by.as_str()));
    runs.push(text_run(Font::Bold, 12, 375, 560, "Closed at:"));
    runs.push(text_run(Font::Regular, 12, 440, 560, ticket.closed_at.as_str()));
    runs.push(text_run(Font::Bold, 12, 50, 540, "Solution:"));
    runs.push(text_run(Font::Regular, 11, 110, 540, ticket.solution.as_str()));
    assert(run_views(runs@) =~= ticket_runs(ticket@));
    runs
}

/// What an operation of a content stream works on.
#[derive(Clone, Debug, PartialEq, Eq)]
pub enum Operand {
    /// A name, such as that of a typeface.
    Name(String),
    /// A whole number.
    Integer(i64),
    /// A text to show, written as a literal string.
    Text(String),
}

/// What an operand holds.
pub enum OperandData {
    Name(Seq<char>),
    Integer(i64),
    Text(Seq<char>),
}

impl View for Operand {
    type V = OperandData;

    open spec fn view(&self) -> OperandData {
        match self {
            Operand::Name(name) => OperandData::Name(name@),
            Operand::Integer(number) => OperandData::Integer(*number),
            Operand::Text(text) => OperandData::Text(text@),
        }
    }
}

/// An operation of a content stream: its operands, then the operator.
#[derive(Clone, Debug, PartialEq, Eq)]
pub struct Operation {
    pub operator: String,
    pub operands: Vec<Operand>,
}

/// What an operation holds.
pub struct OperationData {
    pub operator: Seq<char>,
    pub operands: Seq<OperandData>,
}

impl View for Operation {
    type V = OperationData;

    open spec fn view(&self) -> OperationData {
        OperationData {
            operator: self.operator@,
            operands: Seq::new(self.operands@.len(), |i: int| self.operands@[i]@),
        }
    }
}

/// The views of operations.
pub open spec fn operation_views(operations: Seq<Operation>) -> Seq<OperationData> {
    Seq::new(operations.len(), |i: int| operations[i]@)
}

/// An operation.
pub open spec fn operation(operator: Seq<char>, operands: Seq<OperandData>) -> OperationData {
    OperationData { operator, operands }
}

/// The operations that show one line of text: begin a text object, choose
/// the typeface and its size, move to the place, show the text, end the text
/// object.
pub open spec fn run_operations(run: TextRunData) -> Seq<OperationData> {
    seq![
        operation("BT"@, seq![]),
        operation(
            "Tf"@,
            seq![OperandData::Name(font_name(run.font)), OperandData::Integer(run.size)],
        ),
        operation("Td"@, seq![OperandData::Integer(run.x), OperandData::Integer(run.y)]),
        operation("Tj"@, seq![OperandData::Text(run.text)]),
        operation("ET"@, seq![]),
    ]
}

/// The operations that show the lines of a page, in order.
pub open spec fn page_operations(runs: Seq<TextRunData>) -> Seq<OperationData>
    decreases runs.len(),
{
    if runs.len() == 0 {
        Seq::empty()
    } else {
        page_operations(runs.drop_last()) + run_operations(runs.last())
    }
}

/// Makes an operation.
fn make_operation(operator: &str, operands: Vec<Operand>) -> (made: Operation)
    ensures
        made@ == operation(operator@, Seq::new(operands@.len(), |i: int| operands@[i]@)),
{
    Operation { operator: operator.to_string(), operands }
}

/// Adds to a content stream the operations that show one line of text.
fn show_run(operations: &mut Vec<Operation>, run: &TextRun)
    ensures
        operation_views(final(operations)@) == operation_views(old(operations)@) + run_operations(
            run@,
        ),
{
    let ghost before = operation_views(operations@);
    operations.push(make_operation("BT", Vec::new()));
    let mut face: Vec<Operand> = Vec::new();
    face.push(
        Operand::Name(
            match run.font {
                Font::Regular => "F1".to_string(),
                Font::Bold => "F2".to_string(),
            },
        ),
    );
    face.push(Operand::Integer(run.size));
    operations.push(make_operation("Tf", face));
    let mut place: Vec<Operand> = Vec::new();
    place.push(Operand::Integer(run.x));
    place.push(Operand::Integer(run.y));
    operations.push(make_operation("Td", place));
    let mut shown: Vec<Operand> = Vec::new();
    shown.push(Operand::Text(run.text.clone()));
    operations.push(make_operation("Tj", shown));
    operations.push(make_operation("ET", Vec::new()));
    proof {
        let made = operation_views(operations@);
        let wanted = before + run_operations(run@);
        assert(made.len() == wanted.len());
        assert forall|i: int| 0 <= i < made.len() implies made[i] == wanted[i] by {
            if i >= before.len() {
                let k = i - before.len();
                assert(made[i].operator == run_operations(run@)[k].operator);
                assert(made[i].operands =~= run_operations(run@)[k].operands);
            } else {
                assert(made[i] == before[i]);
            }
        }
        assert(made =~= wanted);
    }
}

/// The content stream of a page, as operations.
pub fn page_content(runs: &Vec<TextRun>) -> (operations: Vec<Operation>)
    ensures
        operation_views(operations@) == page_operations(run_views(runs@)),
{
    let mut operations: Vec<Operation> = Vec::new();
    let mut i: usize = 0;
    assert(operation_views(operations@) =~= page_operations(run_views(runs@).take(0)));
    while i < runs.len()
        invariant
            i <= runs.len(),
            operation_views(operations@) == page_operations(run_views(runs@).take(i as int)),
        decreases runs.len() - i,
    {
        proof {
            assert(run_views(runs@).take(i as int + 1).drop_last() =~= run_views(runs@).take(
                i as int,
            ));
            assert(run_views(runs@).take(i as int + 1).last() == runs@[i as int]@);
        }
        show_run(&mut operations, &runs[i]);
        i += 1;
    }
    assert(run_views(runs@).take(i as int) =~= run_views(runs@));
    operations
}

/// The bytes of the content stream that holds these operations, as `lopdf`
/// writes them; `None` if it refuses them. It is not restated here.
pub uninterp spec fn content_stream(operations: Seq<OperationData>) -> Option<Seq<u8>>;

/// Encodes the operations with `lopdf::content::Content::encode`. Each
/// operation is handed over as an `lopdf` operation of the same operator and
/// operands: a name as a name object, a number as an integer object, a text
/// as a literal string object. Returns the bytes, or the library's
/// description of why it failed. The contract only names the bytes: the same
/// operations always give the same ones.
#[verifier::external_body]
fn encode_content(operations: &Vec<Operation>) -> (encoded: Result<Vec<u8>, String>)
    ensures
        match encoded {
            Ok(bytes) => content_stream(operation_views(operations@)) == Some(bytes@),
            Err(_) => content_stream(operation_views(operations@)) is None,
        },
{
    let object = |operand: &Operand| match operand {
        Operand::Name(name) => Object::Name(name.as_bytes().to_vec()),
        Operand::Integer(number) => Object::Integer(*number),
        Operand::Text(text) => Object::string_literal(text.as_str()),
    };
    let operations = operations.iter().map(
        |made| lopdf::content::Operation::new(
            made.operator.as_str(),
            made.operands.iter().map(object).collect(),
        ),
    ).collect::<Vec<_>>();
    lopdf::content::Content { operations }.encode().map_err(|error| error.to_string())
}

/// A value that stands alone or is an item of an array or of an inner
/// dictionary.
#[derive(Clone, Debug, PartialEq, Eq)]
pub enum PdfAtom {
    /// A name.
    Name(String),
    /// A whole number.
    Integer(i64),
    /// A reference to the object with this number.
    Reference(u32),
}

/// What an atom holds.
pub enum PdfAtomData {
    Name(Seq<char>),
    Integer(i64),
    Reference(u32),
}

impl View for PdfAtom {
    type V = PdfAtomData;

    open spec fn view(&self) -> PdfAtomData {
        match self {
            PdfAtom::Name(name) => PdfAtomData::Name(name@),
            PdfAtom::Integer(number) => PdfAtomData::Integer(*number),
            PdfAtom::Reference(id) => PdfAtomData::Reference(*id),
        }
    }
}

/// What a dictionary of the file holds under a key.
#[derive(Clone, Debug, PartialEq, Eq)]
pub enum PdfValue {
    /// A single value.
    Atom(PdfAtom),
    /// An array of values.
    Array(Vec<PdfAtom>),
    /// An inner dictionary: keys with their values, in order.
    Dictionary(Vec<(String, PdfAtom)>),
}

/// What a value holds.
pub enum PdfValueData {
    Atom(PdfAtomData),
    Array(Seq<PdfAtomData>),
    Dictionary(Seq<(Seq<char>, PdfAtomData)>),
}

impl View for PdfValue {
    type V = PdfValueData;

    open spec fn view(&self) -> PdfValueData {
        match self {
            PdfValue::Atom(atom) => PdfValueData::Atom(atom@),
            PdfValue::Array(items) => PdfValueData::Array(
                Seq::new(items@.len(), |i: int| items@[i]@),
            ),
            PdfValue::Dictionary(entries) => PdfValueData::Dictionary(
                Seq::new(entries@.len(), |i: int| (entries@[i].0@, entries@[i].1@)),
            ),
        }
    }
}

/// A name as the value under a key.
pub open spec fn name(text: Seq<char>) -> PdfValueData {
    PdfValueData::Atom(PdfAtomData::Name(text))
}

/// A whole number as the value under a key.
pub open spec fn integer(number: i64) -> PdfValueData {
    PdfValueData::Atom(PdfAtomData::Integer(number))
}

/// A reference as the value under a key.
pub open spec fn reference(id: u32) -> PdfValueData {
    PdfValueData::Atom(PdfAtomData::Reference(id))
}

/// A key of a dictionary with its value.
#[derive(Clone, Debug, PartialEq, Eq)]
pub struct PdfEntry {
    pub key: String,
    pub value: PdfValue,
}

impl View for PdfEntry {
    type V = (Seq<char>, PdfValueData);

    open spec fn view(&self) -> (Seq<char>, PdfValueData) {
        (self.key@, self.value@)
    }
}

/// An object of the file.
#[derive(Clone, Debug, PartialEq, Eq)]
pub enum PdfObject {
    /// A dictionary: keys with their values, in order.
    Dictionary(Vec<PdfEntry>),
    /// A stream with this content and no settings of its own.
    Stream(Vec<u8>),
}

/// What an object holds.
pub enum PdfObjectData {
    Dictionary(Seq<(Seq<char>, PdfValueData)>),
    Stream(Seq<u8>),
}

impl View for PdfObject {
    type V = PdfObjectData;

    open spec fn view(&self) -> PdfObjectData {
        match self {
            PdfObject::Dictionary(entries) => PdfObjectData::Dictionary(
                Seq::new(entries@.len(), |i: int| entries@[i]@),
            ),
            PdfObject::Stream(content) => PdfObjectData::Stream(content@),
        }
    }
}

/// A file: its objects, numbered from 1 in this order, and its trailer,
/// which names the object that is its root.
#[derive(Clone, Debug, PartialEq, Eq)]
pub struct PdfDocument {
    pub version: String,
    pub objects: Vec<PdfObject>,
    pub trailer: Vec<(String, PdfAtom)>,
}

/// What a file holds.
pub struct PdfDocumentData {
    pub version: Seq<char>,
    pub objects: Seq<PdfObjectData>,
    pub trailer: Seq<(Seq<char>, PdfAtomData)>,
}

/// What the entries of a trailer or of an inner dictionary hold.
pub open spec fn atom_entries(entries: Seq<(String, PdfAtom)>) -> Seq<(Seq<char>, PdfAtomData)> {
    Seq::new(entries.len(), |i: int| (entries[i].0@, entries[i].1@))
}

impl View for PdfDocument {
    type V = PdfDocumentData;

    open spec fn view(&self) -> PdfDocumentData {
        PdfDocumentData {
            version: self.version@,
            objects: Seq::new(self.objects@.len(), |i: int| self.objects@[i]@),
            trailer: atom_entries(self.trailer@),
        }
    }
}

/// The file of one page with this content: the page tree (1), the two
/// typefaces (2, 3), the resources that name them (4), the content (5), the
/// page, of A4 size (6), and the catalog (7), which the trailer names as the
/// root.
pub open spec fn single_page(content: Seq<u8>) -> PdfDocumentData {
    PdfDocumentData {
        version: "1.5"@,
        objects: seq![
            PdfObjectData::Dictionary(
                seq![
                    ("Type"@, name("Pages"@)),
                    ("Kids"@, PdfValueData::Array(seq![PdfAtomData::Reference(6)])),
                    ("Count"@, integer(1)),
                    ("Resources"@, reference(4)),
                    (
                        "MediaBox"@,
                        PdfValueData::Array(
                            seq![
                                PdfAtomData::Integer(0),
                                PdfAtomData::Integer(0),
                                PdfAtomData::Integer(595),
                                PdfAtomData::Integer(842),
                            ],
                        ),
                    ),
                ],
            ),
            font("Arial"@),
            font("Arial-Bold"@),
            PdfObjectData::Dictionary(
                seq![
                    (
                        "Font"@,
                        PdfValueData::Dictionary(
                            seq![
                                ("F1"@, PdfAtomData::Reference(2)),
                                ("F2"@, PdfAtomData::Reference(3)),
                            ],
                        ),
                    ),
                ],
            ),
            PdfObjectData::Stream(content),
            PdfObjectData::Dictionary(
                seq![
                    ("Type"@, name("Page"@)),
                    ("Parent"@, reference(1)),
                    ("Contents"@, reference(5)),
                ],
            ),
            PdfObjectData::Dictionary(
                seq![("Type"@, name("Catalog"@)), ("Pages"@, reference(1))],
            ),
        ],
        trailer: seq![("Root"@, PdfAtomData::Reference(7))],
    }
}

/// The dictionary of a typeface: a Type 1 font of this name.
pub open spec fn font(base: Seq<char>) -> PdfObjectData {
    PdfObjectData::Dictionary(
        seq![("Type"@, name("Font"@)), ("Subtype"@, name("Type1"@)), ("BaseFont"@, name(base))],
    )
}

/// Makes an entry whose value is a name.
fn name_entry(key: &str, text: &str) -> (entry: PdfEntry)
    ensures
        entry@ == (key@, name(text@)),
{
    PdfEntry { key: key.to_string(), value: PdfValue::Atom(PdfAtom::Name(text.to_string())) }
}

/// Makes an entry whose value is a reference.
fn reference_entry(key: &str, id: u32) -> (entry: PdfEntry)
    ensures
        entry@ == (key@, reference(id)),
{
    PdfEntry { key: key.to_string(), value: PdfValue::Atom(PdfAtom::Reference(id)) }
}

/// Makes the dictionary of a typeface.
fn font_object(base: &str) -> (object: PdfObject)
    ensures
        object@ == font(base@),
{
    let mut entries: Vec<PdfEntry> = Vec::new();
    entries.push(name_entry("Type", "Font"));
    entries.push(name_entry("Subtype", "Type1"));
    entries.push(name_entry("BaseFont", base));
    let object = PdfObject::Dictionary(entries);
    assert(object@->Dictionary_0 =~= font(base@)->Dictionary_0);
    object
}

/// Makes the page tree.
fn pages_object() -> (object: PdfObject)
    ensures
        object@ == single_page(Seq::empty()).objects[0],
{
    let mut kids: Vec<PdfAtom> = Vec::new();
    kids.push(PdfAtom::Reference(6));
    let kids = PdfValue::Array(kids);
    assert(kids@->Array_0 =~= seq![PdfAtomData::Reference(6)]);
    let mut media_box: Vec<PdfAtom> = Vec::new();
    media_box.push(PdfAtom::Integer(0));
    media_box.push(PdfAtom::Integer(0));
    media_box.push(PdfAtom::Integer(595));
    media_box.push(PdfAtom::Integer(842));
    let media_box = PdfValue::Array(media_box);
    assert(media_box@->Array_0 =~= seq![
        PdfAtomData::Integer(0),
        PdfAtomData::Integer(0),
        PdfAtomData::Integer(595),
        PdfAtomData::Integer(842),
    ]);
    let mut entries: Vec<PdfEntry> = Vec::new();
    entries.push(name_entry("Type", "Pages"));
    entries.push(PdfEntry { key: "Kids".to_string(), value: kids });
    entries.push(PdfEntry { key: "Count".to_string(), value: PdfValue::Atom(PdfAtom::Integer(1)) });
    entries.push(reference_entry("Resources", 4));
    entries.push(PdfEntry { key: "MediaBox".to_string(), value: media_box });
    let object = PdfObject::Dictionary(entries);
    assert(object@->Dictionary_0 =~= single_page(Seq::empty()).objects[0]->Dictionary_0);
    object
}

/// Makes the resources of the page.
fn resources_object() -> (object: PdfObject)
    ensures
        object@ == single_page(Seq::empty()).objects[3],
{
    let mut fonts: Vec<(String, PdfAtom)> = Vec::new();
    fonts.push(("F1".to_string(), PdfAtom::Reference(2)));
    fonts.push(("F2".to_string(), PdfAtom::Reference(3)));
    let value = PdfValue::Dictionary(fonts);
    assert(value@->Dictionary_0 =~= seq![
        ("F1"@, PdfAtomData::Reference(2)),
        ("F2"@, PdfAtomData::Reference(3)),
    ]);
    let mut entries: Vec<PdfEntry> = Vec::new();
    entries.push(PdfEntry { key: "Font".to_string(), value });
    let object = PdfObject::Dictionary(entries);
    assert(object@->Dictionary_0 =~= single_page(Seq::empty()).objects[3]->Dictionary_0);
    object
}

/// Makes the page.
fn page_object() -> (object: PdfObject)
    ensures
        object@ == single_page(Seq::empty()).objects[5],
{
    let mut entries: Vec<PdfEntry> = Vec::new();
    entries.push(name_entry("Type", "Page"));
    entries.push(reference_entry("Parent", 1));
    entries.push(reference_entry("Contents", 5));
    let object = PdfObject::Dictionary(entries);
    assert(object@->Dictionary_0 =~= single_page(Seq::empty()).objects[5]->Dictionary_0);
    object
}

/// Makes the catalog.
fn catalog_object() -> (object: PdfObject)
    ensures
        object@ == single_page(Seq::empty()).objects[6],
{
    let mut entries: Vec<PdfEntry> = Vec::new();
    entries.push(name_entry("Type", "Catalog"));
    entries.push(reference_entry("Pages", 1));
    let object = PdfObject::Dictionary(entries);
    assert(object@->Dictionary_0 =~= single_page(Seq::empty()).objects[6]->Dictionary_0);
    object
}

/// Describes the file of one page with this content.
pub fn single_page_document(content: Vec<u8>) -> (document: PdfDocument)
    ensures
        document@ == single_page(content@),
{
    let mut objects: Vec<PdfObject> = Vec::new();
    objects.push(pages_object());
    objects.push(font_object("Arial"));
    objects.push(font_object("Arial-Bold"));
    objects.push(resources_object());
    objects.push(PdfObject::Stream(content));
    objects.push(page_object());
    objects.push(catalog_object());
    let mut trailer: Vec<(String, PdfAtom)> = Vec::new();
    trailer.push(("Root".to_string(), PdfAtom::Reference(7)));
    let document = PdfDocument { version: "1.5".to_string(), objects, trailer };
    assert(document@.objects =~= single_page(content@).objects);
    assert(document@.trailer =~= single_page(content@).trailer);
    document
}

/// Whether no two entries have the same key.
pub open spec fn distinct_keys<T>(entries: Seq<(Seq<char>, T)>) -> bool {
    forall|i: int, j: int|
        0 <= i < entries.len() && 0 <= j < entries.len() && i != j ==> (#[trigger] entries[i]).0
            != (#[trigger] entries[j]).0
}

/// Whether an object can be written as it is described: in a dictionary,
/// and in each dictionary inside it, every key stands once.
pub open spec fn well_keyed(object: PdfObjectData) -> bool {
    match object {
        PdfObjectData::Dictionary(entries) => distinct_keys(entries) && forall|i: int|
            0 <= i < entries.len() ==> ((#[trigger] entries[i]).1 matches PdfValueData::Dictionary(
                inner,
            ) ==> distinct_keys(inner)),
        PdfObjectData::Stream(_) => true,
    }
}

/// Whether every object of a file can be written as it is described.
pub open spec fn well_keyed_all(objects: Seq<PdfObjectData>) -> bool {
    forall|i: int| 0 <= i < objects.len() ==> well_keyed(#[trigger] objects[i])
}

/// The file of one page can be written as it is described.
pub proof fn lemma_single_page_is_well_keyed(content: Seq<u8>)
    ensures
        well_keyed_all(single_page(content).objects),
        distinct_keys(single_page(content).trailer),
{
    reveal_strlit("Type");
    reveal_strlit("Kids");
    reveal_strlit("Count");
    reveal_strlit("Resources");
    reveal_strlit("MediaBox");
    reveal_strlit("Subtype");
    reveal_strlit("BaseFont");
    reveal_strlit("Font");
    reveal_strlit("F1");
    reveal_strlit("F2");
    reveal_strlit("Parent");
    reveal_strlit("Contents");
    reveal_strlit("Pages");
    let objects = single_page(content).objects;
    assert("Type"@[0] == 'T' && "Kids"@[0] == 'K' && "Count"@[0] == 'C' && "Resources"@[0] == 'R'
        && "MediaBox"@[0] == 'M');
    assert("Subtype"@[0] == 'S' && "BaseFont"@[0] == 'B' && "Font"@[0] == 'F');
    assert("F1"@[1] == '1' && "F2"@[1] == '2');
    assert("Parent"@[0] == 'P' && "Contents"@[0] == 'C' && "Pages"@[0] == 'P');
    assert(well_keyed(objects[0]));
    assert(well_keyed(objects[1]));
    assert(well_keyed(objects[2]));
    assert(well_keyed(objects[3])) by {
        let entries = objects[3]->Dictionary_0;
        let inner = entries[0].1->Dictionary_0;
        assert(distinct_keys(inner));
    }
    assert(well_keyed(objects[4]));
    assert(well_keyed(objects[5]));
    assert(well_keyed(objects[6]));
}

/// The bytes of a file as `lopdf` saves it, with its streams compressed where
/// that makes them shorter; `None` if saving fails. It is not restated here.
pub uninterp spec fn pdf_file(document: PdfDocumentData) -> Option<Seq<u8>>;

/// `lopdf::Document`: a file under construction. Nothing of its inside is
/// visible here; what it holds is spoken of through [`file_objects`].
#[verifier::external_type_specification]
#[verifier::external_body]
pub struct ExDocument(Document);

/// The objects that a file under construction holds, in the order of their
/// numbers, which start at 1.
pub uninterp spec fn file_objects(file: Document) -> Seq<PdfObjectData>;

/// Starts a file with `lopdf::Document::new`: it holds no object yet.
#[verifier::external_body]
fn new_file() -> (file: Document)
    ensures
        file_objects(file) == Seq::<PdfObjectData>::empty(),
{
    Document::new()
}

/// Adds a dictionary to a file with `Document::add_object`, which gives it
/// the next number. The dictionary is handed over with the same keys and
/// values in the same order: a name as a name object, a number as an integer
/// object, a reference as a reference of generation 0, and arrays and inner
/// dictionaries made of these. No key may stand twice: `lopdf` would keep
/// one of the two values only.
#[verifier::external_body]
fn add_dictionary(file: &mut Document, entries: &Vec<PdfEntry>)
    requires
        file_objects(*old(file)).len() < u32::MAX,
        well_keyed(PdfObjectData::Dictionary(Seq::new(entries@.len(), |i: int| entries@[i]@))),
    ensures
        file_objects(*final(file)) == file_objects(*old(file)).push(
            PdfObjectData::Dictionary(Seq::new(entries@.len(), |i: int| entries@[i]@)),
        ),
{
    let atom = |atom: &PdfAtom| match atom {
        PdfAtom::Name(name) => name.as_str().into(),
        PdfAtom::Integer(number) => Object::Integer(*number),
        PdfAtom::Reference(id) => Object::Reference((*id, 0)),
    };
    file.add_object(Dictionary::from_iter(entries.iter().map(|e| (e.key.as_str(), match &e.value {
        PdfValue::Atom(one) => atom(one),
        PdfValue::Array(all) => Object::Array(all.iter().map(atom).collect()),
        PdfValue::Dictionary(all) => Object::Dictionary(all.iter().map(|e| (e.0.as_str(), atom(&e.1))).collect()),
    }))));
}

/// Adds a stream to a file with `Document::add_object`, which gives it the
/// next number. The stream is made by `lopdf::Stream::new` from an empty
/// dictionary and the content.
#[verifier::external_body]
fn add_stream(file: &mut Document, content: &Vec<u8>)
    requires
        file_objects(*old(file)).len() < u32::MAX,
    ensures
        file_objects(*final(file)) == file_objects(*old(file)).push(
            PdfObjectData::Stream(content@),
        ),
{
    file.add_object(Stream::new(Dictionary::new(), content.clone()));
}

/// Saves a file into memory with `Document::save_to`, after its version is
/// set, the entries of the trailer are set, each handed over as an atom of a
/// dictionary is, and its streams are compressed with `Document::compress`.
/// No key of the trailer may stand twice. Returns the bytes, or the
/// library's description of why saving failed. The contract only names the
/// bytes: files of the same version, objects and trailer always give the
/// same ones.
#[verifier::external_body]
fn save_file(file: Document, version: &str, trailer: &Vec<(String, PdfAtom)>) -> (saved: Result<
    Vec<u8>,
    String,
>)
    requires
        distinct_keys(atom_entries(trailer@)),
    ensures
        match saved {
            Ok(bytes) => pdf_file(
                PdfDocumentData {
                    version: version@,
                    objects: file_objects(file),
                    trailer: atom_entries(trailer@),
                },
            ) == Some(bytes@),
            Err(_) => pdf_file(
                PdfDocumentData {
                    version: version@,
                    objects: file_objects(file),
                    trailer: atom_entries(trailer@),
                },
            ) is None,
        },
{
    let mut file = file;
    file.version = version.to_string();
    for entry in trailer.iter() {
        file.trailer.set(entry.0.as_str(), match &entry.1 {
            PdfAtom::Name(name) => Object::from(name.as_str()),
            PdfAtom::Integer(number) => Object::Integer(*number),
            PdfAtom::Reference(id) => Object::Reference((*id, 0)),
        });
    }
    file.compress();
    let mut bytes = Vec::new();
    file.save_to(&mut bytes).map(|_| bytes).map_err(|error| error.to_string())
}

/// Turns the description of a file into bytes: the objects are added one by
/// one, then the file is saved.
fn save_document(document: &PdfDocument) -> (saved: Result<Vec<u8>, String>)
    requires
        document@.objects.len() < u32::MAX,
        well_keyed_all(document@.objects),
        distinct_keys(document@.trailer),
    ensures
        match saved {
            Ok(bytes) => pdf_file(document@) == Some(bytes@),
            Err(_) => pdf_file(document@) is None,
        },
{
    let mut file = new_file();
    let mut i: usize = 0;
    while i < document.objects.len()
        invariant
            i <= document.objects.len(),
            document@.objects.len() < u32::MAX,
            well_keyed_all(document@.objects),
            file_objects(file) == document@.objects.take(i as int),
        decreases document.objects.len() - i,
    {
        assert(well_keyed(document@.objects[i as int]));
        match &document.objects[i] {
            PdfObject::Dictionary(entries) => {
                add_dictionary(&mut file, entries);
            },
            PdfObject::Stream(content) => {
                add_stream(&mut file, content);
            },
        }
        assert(document@.objects.take(i as int + 1) =~= document@.objects.take(i as int).push(
            document@.objects[i as int],
        ));
        i += 1;
    }
    assert(document@.objects.take(i as int) =~= document@.objects);
    save_file(file, document.version.as_str(), &document.trailer)
}

/// What the library's outcome becomes: the bytes, or an `ExportError` that
/// carries the library's words.
pub fn pdf_outcome(made: Result<Vec<u8>, String>) -> (file: Result<Vec<u8>, ApiError>)
    ensures
        match made {
            Ok(bytes) => file == Ok::<Vec<u8>, ApiError>(bytes),
            Err(cause) => file matches Err(ApiError::ExportError(ExportError::PDFError(reason)))
                && reason == cause,
        },
{
    match made {
        Ok(bytes) => Ok(bytes),
        Err(cause) => Err(ApiError::ExportError(ExportError::PDFError(cause))),
    }
}

/// The bytes of the PDF of a ticket: the file of one page whose content shows
/// the lines of the ticket; `None` where `lopdf` refuses the content or the
/// file.
pub open spec fn ticket_pdf(ticket: TicketViewData) -> Option<Seq<u8>> {
    match content_stream(page_operations(ticket_runs(ticket))) {
        Some(content) => pdf_file(single_page(content)),
        None => None,
    }
}

/// Renders a ticket as a PDF of one page.
pub fn create_ticket_pdf(ticket: TicketView) -> (file: Result<Vec<u8>, ApiError>)
    ensures
        match ticket_pdf(ticket@) {
            Some(bytes) => file matches Ok(written) && written@ == bytes,
            None => file matches Err(ApiError::ExportError(ExportError::PDFError(_))),
        },
{
    let runs = ticket_layout(&ticket);
    let operations = page_content(&runs);
    let content = match encode_content(&operations) {
        Ok(content) => content,
        Err(cause) => {
            return pdf_outcome(Err(cause));
        },
    };
    let document = single_page_document(content);
    proof {
        lemma_single_page_is_well_keyed(content@);
    }
    pdf_outcome(save_document(&document))
}

} // verus!
