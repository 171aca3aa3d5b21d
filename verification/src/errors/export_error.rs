//! Failures of rendering a ticket for download.

use vstd::prelude::*;
use vstd::string::*;

verus! {

/// Why an export could not be produced. Each variant carries the description
/// given by the rendering library.
#[derive(Clone, Debug, PartialEq, Eq)]
pub enum ExportError {
    PDFError(String),
    CSVError(String),
}

/// The message of each failure.
pub open spec fn export_error_text(error: ExportError) -> Seq<char> {
    match error {
        ExportError::PDFError(cause) => "Failed to generate PDF: "@ + cause@,
        ExportError::CSVError(cause) => "Failed to generate CSV: "@ + cause@,
    }
}

impl ExportError {
    /// The message shown for this failure.
    pub fn to_string(&self) -> (text: String)
        ensures
            text@ == export_error_text(*self),
    {
        match self {
            ExportError::PDFError(cause) => String::from_str("Failed to generate PDF: ").concat(
                cause.as_str(),
            ),
            ExportError::CSVError(cause) => String::from_str("Failed to generate CSV: ").concat(
                cause.as_str(),
            ),
        }
    }
}

} // verus!
