//! The ways in which an operation on a journal can fail.

use vstd::prelude::*;

verus! {

/// Why an operation on a journal was given up.
#[derive(Clone, Copy, Debug, PartialEq, Eq, Structural)]
pub enum JournalError {
    /// The journal root, the configuration file or the entry file is
    /// already there.
    AlreadyExists,
    /// There is no configuration file in the working directory.
    ConfigNotFound,
    /// The configuration file does not hold the three text fields.
    ConfigParseError,
    /// A directory could not be created.
    DirectoryCreateError,
    /// A file could not be written.
    FileWriteError,
}

impl JournalError {
    /// What the error says to the operator.
    pub open spec fn message_text(self) -> Seq<char> {
        match self {
            JournalError::AlreadyExists => "already exists"@,
            JournalError::ConfigNotFound => "configuration file not found"@,
            JournalError::ConfigParseError => "configuration file is not valid"@,
            JournalError::DirectoryCreateError => "directory could not be created"@,
            JournalError::FileWriteError => "file could not be written"@,
        }
    }

    /// A short text for the operator.
    pub fn message(&self) -> (text: &'static str)
        ensures
            text@ == self.message_text(),
    {
        match self {
            JournalError::AlreadyExists => "already exists",
            JournalError::ConfigNotFound => "configuration file not found",
            JournalError::ConfigParseError => "configuration file is not valid",
            JournalError::DirectoryCreateError => "directory could not be created",
            JournalError::FileWriteError => "file could not be written",
        }
    }
}

} // verus!
