//! What an operation asks of the file system, and what it is told back.
//!
//! An operation never touches the disk. It names one action at a time; the
//! caller carries the action out and reports what happened as an event.

use crate::config::{ConfigView, JournalConfig};
use crate::error::JournalError;
use vstd::prelude::*;

verus! {

/// An action as the contracts see it.
pub enum ActionView {
    Probe { path: Seq<char> },
    CreateDirectory { path: Seq<char> },
    CreateFile { path: Seq<char>, content: Seq<char> },
    StoreConfig { path: Seq<char>, config: ConfigView },
    LoadConfig { path: Seq<char> },
    Finish { result: Result<(), JournalError> },
}

/// One step that the caller is asked to take.
#[derive(Debug, PartialEq, Eq)]
pub enum Action {
    /// Find out whether anything lies at `path`. Answered by
    /// `Event::Probed`.
    Probe { path: String },
    /// Create the directory `path` with every missing parent; a directory
    /// that is already there is no failure. Answered by
    /// `Event::DirectoryCreated` or `Event::DirectoryFailed`.
    CreateDirectory { path: String },
    /// Create the file `path` with `content`, and never replace a file that
    /// is already there. Answered by `Event::FileCreated`,
    /// `Event::FileExists` or `Event::FileFailed`.
    CreateFile { path: String, content: String },
    /// Write `config` as a new file `path`, and never replace a file that
    /// is already there. Answered like `CreateFile`.
    StoreConfig { path: String, config: JournalConfig },
    /// Read the configuration from the file `path`. Answered by
    /// `Event::ConfigLoaded`, `Event::ConfigMissing` or
    /// `Event::ConfigMalformed`.
    LoadConfig { path: String },
    /// The operation is over, with this result. Nothing is left to do.
    Finish { result: Result<(), JournalError> },
}

impl View for Action {
    type V = ActionView;

    open spec fn view(&self) -> ActionView {
        match self {
            Action::Probe { path } => ActionView::Probe { path: path@ },
            Action::CreateDirectory { path } => ActionView::CreateDirectory { path: path@ },
            Action::CreateFile { path, content } => ActionView::CreateFile {
                path: path@,
                content: content@,
            },
            Action::StoreConfig { path, config } => ActionView::StoreConfig {
                path: path@,
                config: config@,
            },
            Action::LoadConfig { path } => ActionView::LoadConfig { path: path@ },
            Action::Finish { result } => ActionView::Finish { result: *result },
        }
    }
}

impl Clone for Action {
    fn clone(&self) -> (copy: Action)
        ensures
            copy@ == self@,
    {
        match self {
            Action::Probe { path } => Action::Probe { path: path.clone() },
            Action::CreateDirectory { path } => Action::CreateDirectory { path: path.clone() },
            Action::CreateFile { path, content } => Action::CreateFile {
                path: path.clone(),
                content: content.clone(),
            },
            Action::StoreConfig { path, config } => Action::StoreConfig {
                path: path.clone(),
                config: config.clone(),
            },
            Action::LoadConfig { path } => Action::LoadConfig { path: path.clone() },
            Action::Finish { result } => Action::Finish { result: *result },
        }
    }
}

/// An event as the contracts see it.
pub enum EventView {
    Probed { exists: bool },
    DirectoryCreated,
    DirectoryFailed,
    FileCreated,
    FileExists,
    FileFailed,
    ConfigLoaded { config: ConfigView },
    ConfigMissing,
    ConfigMalformed,
}

/// What came of the action that the caller carried out.
#[derive(Debug, PartialEq, Eq)]
pub enum Event {
    /// Whether anything lies at the probed path.
    Probed { exists: bool },
    /// The directory is there now.
    DirectoryCreated,
    /// The directory could not be created.
    DirectoryFailed,
    /// The file was created and written.
    FileCreated,
    /// A file of that name was already there; it was left as it was.
    FileExists,
    /// The file could not be created or written.
    FileFailed,
    /// The configuration file was read and holds this configuration.
    ConfigLoaded { config: JournalConfig },
    /// There is no configuration file.
    ConfigMissing,
    /// The configuration file does not hold a configuration.
    ConfigMalformed,
}

impl View for Event {
    type V = EventView;

    open spec fn view(&self) -> EventView {
        match self {
            Event::Probed { exists } => EventView::Probed { exists: *exists },
            Event::DirectoryCreated => EventView::DirectoryCreated,
            Event::DirectoryFailed => EventView::DirectoryFailed,
            Event::FileCreated => EventView::FileCreated,
            Event::FileExists => EventView::FileExists,
            Event::FileFailed => EventView::FileFailed,
            Event::ConfigLoaded { config } => EventView::ConfigLoaded { config: config@ },
            Event::ConfigMissing => EventView::ConfigMissing,
            Event::ConfigMalformed => EventView::ConfigMalformed,
        }
    }
}

impl Clone for Event {
    fn clone(&self) -> (copy: Event)
        ensures
            copy@ == self@,
    {
        match self {
            Event::Probed { exists } => Event::Probed { exists: *exists },
            Event::DirectoryCreated => Event::DirectoryCreated,
            Event::DirectoryFailed => Event::DirectoryFailed,
            Event::FileCreated => Event::FileCreated,
            Event::FileExists => Event::FileExists,
            Event::FileFailed => Event::FileFailed,
            Event::ConfigLoaded { config } => Event::ConfigLoaded { config: config.clone() },
            Event::ConfigMissing => Event::ConfigMissing,
            Event::ConfigMalformed => Event::ConfigMalformed,
        }
    }
}

impl EventView {
    /// The error that a failed file creation stands for: `AlreadyExists`
    /// where a file was in the way, `FileWriteError` where the writing
    /// failed. Any other event stands for none.
    pub open spec fn write_failure(self) -> Option<JournalError> {
        match self {
            EventView::FileExists => Some(JournalError::AlreadyExists),
            EventView::FileFailed => Some(JournalError::FileWriteError),
            _ => None,
        }
    }
}

impl Event {
    /// The error that a failed file creation stands for, if the event
    /// reports one.
    pub fn write_failure(&self) -> (failure: Option<JournalError>)
        ensures
            failure == self@.write_failure(),
    {
        match self {
            Event::FileExists => Some(JournalError::AlreadyExists),
            Event::FileFailed => Some(JournalError::FileWriteError),
            _ => None,
        }
    }
}

} // verus!
