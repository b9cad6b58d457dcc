//! What can go wrong while a service is resolved, started or stopped.

use vstd::prelude::*;

verus! {

/// A failure of the library. Every variant carries what a report to the user
/// needs: the formula it concerns and the detail of the failure.
#[derive(Debug)]
pub enum Error {
    /// The persisted run state is present but cannot be decoded; the payload
    /// is the decoder's message.
    Json(String),
    /// No provider knows the formula.
    FormulaNotFound { formula: String },
    /// The formula is known but has no descriptor file.
    PlistNotFound { formula: String },
    /// The program was launched and had already exited when it was polled.
    ServiceFailedToStart { formula: String, code: i32 },
    /// The terminate signal could not be delivered to a live process.
    ServiceFailedToStop { formula: String, pid: i32, reason: String },
    /// A descriptor was built without the named field.
    MissingField(String),
    /// The descriptor's program is not on the filesystem.
    ProgramNotFound { formula: String, program: String },
}

/// A failure as a mathematical value.
pub enum ErrorView {
    Json(Seq<char>),
    FormulaNotFound { formula: Seq<char> },
    PlistNotFound { formula: Seq<char> },
    ServiceFailedToStart { formula: Seq<char>, code: i32 },
    ServiceFailedToStop { formula: Seq<char>, pid: i32, reason: Seq<char> },
    MissingField(Seq<char>),
    ProgramNotFound { formula: Seq<char>, program: Seq<char> },
}

impl View for Error {
    type V = ErrorView;

    open spec fn view(&self) -> ErrorView {
        match *self {
            Error::Json(message) => ErrorView::Json(message@),
            Error::FormulaNotFound { formula } => ErrorView::FormulaNotFound { formula: formula@ },
            Error::PlistNotFound { formula } => ErrorView::PlistNotFound { formula: formula@ },
            Error::ServiceFailedToStart { formula, code } => ErrorView::ServiceFailedToStart {
                formula: formula@,
                code,
            },
            Error::ServiceFailedToStop { formula, pid, reason } => ErrorView::ServiceFailedToStop {
                formula: formula@,
                pid,
                reason: reason@,
            },
            Error::MissingField(field) => ErrorView::MissingField(field@),
            Error::ProgramNotFound { formula, program } => ErrorView::ProgramNotFound {
                formula: formula@,
                program: program@,
            },
        }
    }
}

} // verus!
