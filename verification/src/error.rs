//! What can go wrong when entries are written or read.

use vstd::prelude::*;

verus! {

/// Errors that can occur within the application.
#[derive(Debug, Clone, Copy, PartialEq, Eq, Structural)]
pub enum AppError {
    /// A row could not be written as CSV, or a record of the file could not
    /// be read as CSV.
    Csv,
    /// A note's time could not be written as an RFC 3339 date and time, or
    /// the time in a record of the file is none.
    Timestamp,
}

impl AppError {
    /// What the error says.
    pub open spec fn message_text(self) -> Seq<char> {
        match self {
            AppError::Csv => "malformed CSV record"@,
            AppError::Timestamp => "invalid timestamp"@,
        }
    }

    /// What the error says.
    pub fn message(&self) -> (s: String)
        ensures
            s@ == self.message_text(),
    {
        match self {
            AppError::Csv => "malformed CSV record".to_owned(),
            AppError::Timestamp => "invalid timestamp".to_owned(),
        }
    }
}

} // verus!
