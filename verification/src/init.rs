//! Creating a new journal: the root directory, four files to start with,
//! and the configuration file in the working directory.

use crate::action::{Action, ActionView, Event, EventView};
use crate::config::{ConfigView, JournalConfig, CONFIG_FILE_NAME};
use crate::error::JournalError;
use crate::path::{join, joined};
use vstd::prelude::*;
use vstd::string::*;

verus! {

/// The number of files that a new journal starts with.
pub const BOILERPLATE_COUNT: usize = 4;

/// The name of the `index`-th file of a new journal.
pub open spec fn boilerplate_name(index: int) -> Seq<char> {
    if index == 0 {
        "README.md"@
    } else if index == 1 {
        "TODO.md"@
    } else if index == 2 {
        "CHANGELOG.md"@
    } else {
        "CONTRIBUTING.md"@
    }
}

/// What the `index`-th file of a new journal holds.
pub open spec fn boilerplate_content(index: int) -> Seq<char> {
    if index == 0 {
        "# README \n"@
    } else if index == 1 {
        "# TODO (やるべきこと)\n"@
    } else if index == 2 {
        "# CHANGELOG (実績)\n"@
    } else {
        "# CONTRIBUTING (ガイドライン)\n"@
    }
}

/// The name and the content of the `index`-th file of a new journal, for
/// an index below `BOILERPLATE_COUNT`.
pub fn boilerplate(index: usize) -> (file: Option<(&'static str, &'static str)>)
    ensures
        file is Some <==> index < BOILERPLATE_COUNT,
        file matches Some(pair) ==> pair.0@ == boilerplate_name(index as int) && pair.1@
            == boilerplate_content(index as int),
{
    if index == 0 {
        Some(("README.md", "# README \n"))
    } else if index == 1 {
        Some(("TODO.md", "# TODO (やるべきこと)\n"))
    } else if index == 2 {
        Some(("CHANGELOG.md", "# CHANGELOG (実績)\n"))
    } else if index == 3 {
        Some(("CONTRIBUTING.md", "# CONTRIBUTING (ガイドライン)\n"))
    } else {
        None
    }
}

/// How far the creation of a journal has come.
#[derive(Clone, Copy, Debug, PartialEq, Eq, Structural)]
pub enum InitPhase {
    /// Asking whether the root is already there.
    ProbingRoot,
    /// Asking whether a configuration file is already there.
    ProbingConfig,
    /// Creating the root directory.
    CreatingRoot,
    /// Writing the `index`-th file under the root.
    WritingFile { index: usize },
    /// Writing the configuration file.
    StoringConfig,
    /// Nothing is left to do.
    Finished,
}

/// The creation of a journal as the contracts see it.
pub struct InitModel {
    /// The working directory.
    pub cwd: Seq<char>,
    /// The root directory of the journal.
    pub root: Seq<char>,
    pub phase: InitPhase,
    /// The first failure met so far.
    pub failure: Option<JournalError>,
}

impl InitModel {
    /// The creation of the journal `name` from the working directory `cwd`,
    /// before anything is done.
    pub open spec fn start(cwd: Seq<char>, name: Seq<char>) -> InitModel {
        InitModel { cwd, root: joined(cwd, name), phase: InitPhase::ProbingRoot, failure: None }
    }

    /// Where the configuration file goes: into the working directory, not
    /// under the root.
    pub open spec fn config_path(self) -> Seq<char> {
        joined(self.cwd, CONFIG_FILE_NAME@)
    }

    /// The result of the operation, as far as it is known.
    pub open spec fn result(self) -> Result<(), JournalError> {
        match self.failure {
            Some(error) => Err(error),
            None => Ok(()),
        }
    }

    /// The action that is waited for.
    pub open spec fn pending(self) -> ActionView {
        match self.phase {
            InitPhase::ProbingRoot => ActionView::Probe { path: self.root },
            InitPhase::ProbingConfig => ActionView::Probe { path: self.config_path() },
            InitPhase::CreatingRoot => ActionView::CreateDirectory { path: self.root },
            InitPhase::WritingFile { index } => ActionView::CreateFile {
                path: joined(self.root, boilerplate_name(index as int)),
                content: boilerplate_content(index as int),
            },
            InitPhase::StoringConfig => ActionView::StoreConfig {
                path: self.config_path(),
                config: ConfigView::for_root(self.root),
            },
            InitPhase::Finished => ActionView::Finish { result: self.result() },
        }
    }

    /// The operation given up with `error`.
    pub open spec fn stopped(self, error: JournalError) -> InitModel {
        InitModel { phase: InitPhase::Finished, failure: Some(error), ..self }
    }

    /// The operation gone on to `phase`, after a file creation that was
    /// answered by `event`: a first failure is kept, and the work goes on.
    pub open spec fn written(self, event: EventView, phase: InitPhase) -> InitModel {
        InitModel {
            phase,
            failure: if self.failure is Some {
                self.failure
            } else {
                event.write_failure()
            },
            ..self
        }
    }

    /// What follows the `index`-th file.
    pub open spec fn after_file(index: int) -> InitPhase {
        if index + 1 < BOILERPLATE_COUNT {
            InitPhase::WritingFile { index: (index + 1) as usize }
        } else {
            InitPhase::StoringConfig
        }
    }

    /// The operation after `event`. An event that does not answer the
    /// pending action changes nothing.
    pub open spec fn advance(self, event: EventView) -> InitModel {
        match (self.phase, event) {
            (InitPhase::ProbingRoot, EventView::Probed { exists }) => if exists {
                self.stopped(JournalError::AlreadyExists)
            } else {
                InitModel { phase: InitPhase::ProbingConfig, ..self }
            },
            (InitPhase::ProbingConfig, EventView::Probed { exists }) => if exists {
                self.stopped(JournalError::AlreadyExists)
            } else {
                InitModel { phase: InitPhase::CreatingRoot, ..self }
            },
            (InitPhase::CreatingRoot, EventView::DirectoryCreated) => InitModel {
                phase: InitPhase::WritingFile { index: 0 },
                ..self
            },
            (InitPhase::CreatingRoot, EventView::DirectoryFailed) => self.stopped(
                JournalError::DirectoryCreateError,
            ),
            (InitPhase::WritingFile { index }, EventView::FileCreated)
            | (InitPhase::WritingFile { index }, EventView::FileExists)
            | (InitPhase::WritingFile { index }, EventView::FileFailed) => self.written(
                event,
                Self::after_file(index as int),
            ),
            (InitPhase::StoringConfig, EventView::FileCreated)
            | (InitPhase::StoringConfig, EventView::FileExists)
            | (InitPhase::StoringConfig, EventView::FileFailed) => self.written(
                event,
                InitPhase::Finished,
            ),
            _ => self,
        }
    }
}

/// The creation of a journal, step by step.
///
/// `pending` names the action to carry out; `advance` takes what came of
/// it. The operation is over when `pending` gives `Action::Finish`.
#[derive(Debug)]
pub struct Initializer {
    cwd: String,
    root: String,
    phase: InitPhase,
    failure: Option<JournalError>,
}

impl View for Initializer {
    type V = InitModel;

    closed spec fn view(&self) -> InitModel {
        InitModel { cwd: self.cwd@, root: self.root@, phase: self.phase, failure: self.failure }
    }
}

impl Initializer {
    #[verifier::type_invariant]
    spec fn well_formed(&self) -> bool {
        self.phase matches InitPhase::WritingFile { index } ==> index < BOILERPLATE_COUNT
    }

    /// Starts the creation of the journal `name`, a path taken from the
    /// working directory `cwd`.
    pub fn new(cwd: &str, name: &str) -> (init: Initializer)
        ensures
            init@ == InitModel::start(cwd@, name@),
    {
        Initializer {
            cwd: String::from_str(cwd),
            root: join(cwd, name),
            phase: InitPhase::ProbingRoot,
            failure: None,
        }
    }

    /// The root directory of the journal.
    pub fn root(&self) -> (root: &str)
        ensures
            root@ == self@.root,
    {
        self.root.as_str()
    }

    /// The action to carry out next.
    pub fn pending(&self) -> (action: Action)
        ensures
            action@ == self@.pending(),
    {
        proof {
            use_type_invariant(self);
        }
        match self.phase {
            InitPhase::ProbingRoot => Action::Probe { path: self.root.clone() },
            InitPhase::ProbingConfig => Action::Probe {
                path: join(self.cwd.as_str(), CONFIG_FILE_NAME),
            },
            InitPhase::CreatingRoot => Action::CreateDirectory { path: self.root.clone() },
            InitPhase::WritingFile { index } => {
                let (name, content) = boilerplate(index).unwrap();
                Action::CreateFile {
                    path: join(self.root.as_str(), name),
                    content: String::from_str(content),
                }
            },
            InitPhase::StoringConfig => Action::StoreConfig {
                path: join(self.cwd.as_str(), CONFIG_FILE_NAME),
                config: JournalConfig::for_root(self.root.as_str()),
            },
            InitPhase::Finished => Action::Finish {
                result: match self.failure {
                    Some(error) => Err(error),
                    None => Ok(()),
                },
            },
        }
    }

    /// Takes note of what came of the pending action.
    pub fn advance(self, event: &Event) -> (next: Initializer)
        ensures
            next@ == self@.advance(event@),
    {
        proof {
            use_type_invariant(&self);
        }
        match (self.phase, event) {
            (InitPhase::ProbingRoot, Event::Probed { exists }) => if *exists {
                self.stop(JournalError::AlreadyExists)
            } else {
                self.go(InitPhase::ProbingConfig, None)
            },
            (InitPhase::ProbingConfig, Event::Probed { exists }) => if *exists {
                self.stop(JournalError::AlreadyExists)
            } else {
                self.go(InitPhase::CreatingRoot, None)
            },
            (InitPhase::CreatingRoot, Event::DirectoryCreated) => self.go(
                InitPhase::WritingFile { index: 0 },
                None,
            ),
            (InitPhase::CreatingRoot, Event::DirectoryFailed) => self.stop(
                JournalError::DirectoryCreateError,
            ),
            (InitPhase::WritingFile { index }, Event::FileCreated)
            | (InitPhase::WritingFile { index }, Event::FileExists)
            | (InitPhase::WritingFile { index }, Event::FileFailed) => {
                let phase = if index + 1 < BOILERPLATE_COUNT {
                    InitPhase::WritingFile { index: index + 1 }
                } else {
                    InitPhase::StoringConfig
                };
                self.go(phase, event.write_failure())
            },
            (InitPhase::StoringConfig, Event::FileCreated)
            | (InitPhase::StoringConfig, Event::FileExists)
            | (InitPhase::StoringConfig, Event::FileFailed) => self.go(
                InitPhase::Finished,
                event.write_failure(),
            ),
            _ => self,
        }
    }

    fn stop(self, error: JournalError) -> (next: Initializer)
        ensures
            next@ == self@.stopped(error),
    {
        Initializer { cwd: self.cwd, root: self.root, phase: InitPhase::Finished, failure: Some(error) }
    }

    fn go(self, phase: InitPhase, failure: Option<JournalError>) -> (next: Initializer)
        requires
            phase matches InitPhase::WritingFile { index } ==> index < BOILERPLATE_COUNT,
        ensures
            next@ == (InitModel {
                phase,
                failure: if self@.failure is Some {
                    self@.failure
                } else {
                    failure
                },
                ..self@
            }),
    {
        let kept = match self.failure {
            Some(error) => Some(error),
            None => failure,
        };
        Initializer { cwd: self.cwd, root: self.root, phase, failure: kept }
    }
}

} // verus!
