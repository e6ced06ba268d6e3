//! Adding the entry of a day to a journal.

use crate::action::{Action, ActionView, Event, EventView};
use crate::config::CONFIG_FILE_NAME;
use crate::date::{DateView, EntryDate};
use crate::error::JournalError;
use crate::numeral::{
    decimal, is_digit, lemma_decimal_chars, lemma_decimal_injective, push_decimal,
};
use crate::path::{join, joined, lemma_cut_at_separator};
use crate::template::{render, substitute};
use vstd::prelude::*;
use vstd::string::*;

verus! {

/// The directory of the entries of a month: `<entry_path>/<year>/<month>`,
/// year and month written without padding.
pub open spec fn entry_directory_text(entry_path: Seq<char>, date: DateView) -> Seq<char> {
    joined(joined(entry_path, decimal(date.year)), decimal(date.month))
}

/// The file name of the entry of a day: `<year>_<month>_<day>.md`, the
/// numbers written without padding.
pub open spec fn entry_file_name_text(date: DateView) -> Seq<char> {
    decimal(date.year) + seq!['_'] + decimal(date.month) + seq!['_'] + decimal(date.day)
        + ".md"@
}

/// What a new entry holds: the template with the date stamp of the day in
/// place of every token `{}`.
pub open spec fn entry_content_text(template: Seq<char>, date: DateView) -> Seq<char> {
    substitute(template, date.stamp())
}

/// The path of the entry file of a day in a journal that keeps its entries
/// under `entry_path`.
pub open spec fn entry_path_text(entry_path: Seq<char>, date: DateView) -> Seq<char> {
    joined(entry_directory_text(entry_path, date), entry_file_name_text(date))
}

/// The directory in which the entry of `date` is kept.
pub fn entry_directory(entry_path: &str, date: &EntryDate) -> (directory: String)
    ensures
        directory@ == entry_directory_text(entry_path@, date@),
{
    proof {
        reveal_strlit("/");
        assert("/"@ =~= seq!['/']);
    }
    let mut directory = String::from_str(entry_path);
    directory.append("/");
    push_decimal(&mut directory, date.year());
    directory.append("/");
    push_decimal(&mut directory, date.month() as i32);
    proof {
        assert(directory@ =~= entry_directory_text(entry_path@, date@));
    }
    directory
}

/// The file name of the entry of `date`.
pub fn entry_file_name(date: &EntryDate) -> (name: String)
    ensures
        name@ == entry_file_name_text(date@),
{
    proof {
        reveal_strlit("_");
        assert("_"@ =~= seq!['_']);
    }
    let mut name = String::new();
    push_decimal(&mut name, date.year());
    name.append("_");
    push_decimal(&mut name, date.month() as i32);
    name.append("_");
    push_decimal(&mut name, date.day() as i32);
    name.append(".md");
    proof {
        assert(name@ =~= entry_file_name_text(date@));
    }
    name
}

/// The content of the entry of `date` under `template`.
pub fn entry_content(template: &str, date: &EntryDate) -> (content: String)
    ensures
        content@ == entry_content_text(template@, date@),
{
    render(template, date.stamp())
}

/// The kind of page to add.
#[derive(Clone, Copy, Debug, PartialEq, Eq, Structural)]
pub enum PageKind {
    /// The entry of the day.
    Entry,
    /// An article. Accepted, and nothing is done for it.
    Article,
}

/// How far the adding of an entry has come.
#[derive(Clone, Copy, Debug, PartialEq, Eq, Structural)]
pub enum AppendPhase {
    /// Reading the configuration.
    LoadingConfig,
    /// Asking whether the directory of the month is there.
    ProbingDirectory,
    /// Creating the directory of the month.
    CreatingDirectory,
    /// Writing the entry file.
    WritingEntry,
    /// Nothing is left to do.
    Finished,
}

/// The adding of a page as the contracts see it.
pub struct AppendModel {
    /// The working directory.
    pub cwd: Seq<char>,
    /// The day of the entry.
    pub date: DateView,
    pub phase: AppendPhase,
    /// The directory of the month; empty until the configuration is read.
    pub directory: Seq<char>,
    /// The path of the entry file; empty until the configuration is read.
    pub path: Seq<char>,
    /// What the entry file is to hold; empty until the configuration is
    /// read.
    pub content: Seq<char>,
    /// The result of the operation, as far as it is known.
    pub result: Result<(), JournalError>,
}

impl AppendModel {
    /// The adding of a page of `kind` for the day `date`, from the working
    /// directory `cwd`, before anything is done. For an article nothing is
    /// ever done.
    pub open spec fn start(kind: PageKind, cwd: Seq<char>, date: DateView) -> AppendModel {
        AppendModel {
            cwd,
            date,
            phase: match kind {
                PageKind::Entry => AppendPhase::LoadingConfig,
                PageKind::Article => AppendPhase::Finished,
            },
            directory: Seq::empty(),
            path: Seq::empty(),
            content: Seq::empty(),
            result: Ok(()),
        }
    }

    /// The action that is waited for.
    pub open spec fn pending(self) -> ActionView {
        match self.phase {
            AppendPhase::LoadingConfig => ActionView::LoadConfig {
                path: joined(self.cwd, CONFIG_FILE_NAME@),
            },
            AppendPhase::ProbingDirectory => ActionView::Probe { path: self.directory },
            AppendPhase::CreatingDirectory => ActionView::CreateDirectory {
                path: self.directory,
            },
            AppendPhase::WritingEntry => ActionView::CreateFile {
                path: self.path,
                content: self.content,
            },
            AppendPhase::Finished => ActionView::Finish { result: self.result },
        }
    }

    /// The operation over, with `result`.
    pub open spec fn stopped(self, result: Result<(), JournalError>) -> AppendModel {
        AppendModel { phase: AppendPhase::Finished, result, ..self }
    }

    /// The operation after `event`. An event that does not answer the
    /// pending action changes nothing.
    pub open spec fn advance(self, event: EventView) -> AppendModel {
        match (self.phase, event) {
            (AppendPhase::LoadingConfig, EventView::ConfigLoaded { config }) => {
                let directory = entry_directory_text(config.entry_path, self.date);
                AppendModel {
                    phase: AppendPhase::ProbingDirectory,
                    directory,
                    path: entry_path_text(config.entry_path, self.date),
                    content: entry_content_text(config.journal_template, self.date),
                    ..self
                }
            },
            (AppendPhase::LoadingConfig, EventView::ConfigMissing) => self.stopped(
                Err(JournalError::ConfigNotFound),
            ),
            (AppendPhase::LoadingConfig, EventView::ConfigMalformed) => self.stopped(
                Err(JournalError::ConfigParseError),
            ),
            (AppendPhase::ProbingDirectory, EventView::Probed { exists }) => AppendModel {
                phase: if exists {
                    AppendPhase::WritingEntry
                } else {
                    AppendPhase::CreatingDirectory
                },
                ..self
            },
            (AppendPhase::CreatingDirectory, EventView::DirectoryCreated) => AppendModel {
                phase: AppendPhase::WritingEntry,
                ..self
            },
            (AppendPhase::CreatingDirectory, EventView::DirectoryFailed) => self.stopped(
                Err(JournalError::DirectoryCreateError),
            ),
            (AppendPhase::WritingEntry, EventView::FileCreated)
            | (AppendPhase::WritingEntry, EventView::FileExists)
            | (AppendPhase::WritingEntry, EventView::FileFailed) => self.stopped(
                match event.write_failure() {
                    Some(error) => Err(error),
                    None => Ok(()),
                },
            ),
            _ => self,
        }
    }
}

/// The adding of a page, step by step.
///
/// `pending` names the action to carry out; `advance` takes what came of
/// it. The operation is over when `pending` gives `Action::Finish`.
#[derive(Debug)]
pub struct Appender {
    cwd: String,
    date: EntryDate,
    phase: AppendPhase,
    directory: String,
    path: String,
    content: String,
    result: Result<(), JournalError>,
}

impl View for Appender {
    type V = AppendModel;

    closed spec fn view(&self) -> AppendModel {
        AppendModel {
            cwd: self.cwd@,
            date: self.date@,
            phase: self.phase,
            directory: self.directory@,
            path: self.path@,
            content: self.content@,
            result: self.result,
        }
    }
}

impl Appender {
    /// Starts the adding of a page of `kind` for the day `date`, from the
    /// working directory `cwd`.
    pub fn new(kind: PageKind, cwd: &str, date: EntryDate) -> (appender: Appender)
        ensures
            appender@ == AppendModel::start(kind, cwd@, date@),
    {
        Appender {
            cwd: String::from_str(cwd),
            date,
            phase: match kind {
                PageKind::Entry => AppendPhase::LoadingConfig,
                PageKind::Article => AppendPhase::Finished,
            },
            directory: String::new(),
            path: String::new(),
            content: String::new(),
            result: Ok(()),
        }
    }

    /// The action to carry out next.
    pub fn pending(&self) -> (action: Action)
        ensures
            action@ == self@.pending(),
    {
        match self.phase {
            AppendPhase::LoadingConfig => Action::LoadConfig {
                path: join(self.cwd.as_str(), CONFIG_FILE_NAME),
            },
            AppendPhase::ProbingDirectory => Action::Probe { path: self.directory.clone() },
            AppendPhase::CreatingDirectory => Action::CreateDirectory {
                path: self.directory.clone(),
            },
            AppendPhase::WritingEntry => Action::CreateFile {
                path: self.path.clone(),
                content: self.content.clone(),
            },
            AppendPhase::Finished => Action::Finish { result: self.result },
        }
    }

    /// Takes note of what came of the pending action.
    pub fn advance(self, event: &Event) -> (next: Appender)
        ensures
            next@ == self@.advance(event@),
    {
        match (self.phase, event) {
            (AppendPhase::LoadingConfig, Event::ConfigLoaded { config }) => {
                let directory = entry_directory(config.entry_path.as_str(), &self.date);
                let name = entry_file_name(&self.date);
                let path = join(directory.as_str(), name.as_str());
                let content = entry_content(config.journal_template.as_str(), &self.date);
                Appender {
                    cwd: self.cwd,
                    date: self.date,
                    phase: AppendPhase::ProbingDirectory,
                    directory,
                    path,
                    content,
                    result: self.result,
                }
            },
            (AppendPhase::LoadingConfig, Event::ConfigMissing) => self.stop(
                Err(JournalError::ConfigNotFound),
            ),
            (AppendPhase::LoadingConfig, Event::ConfigMalformed) => self.stop(
                Err(JournalError::ConfigParseError),
            ),
            (AppendPhase::ProbingDirectory, Event::Probed { exists }) => {
                let phase = if *exists {
                    AppendPhase::WritingEntry
                } else {
                    AppendPhase::CreatingDirectory
                };
                self.go(phase)
            },
            (AppendPhase::CreatingDirectory, Event::DirectoryCreated) => self.go(
                AppendPhase::WritingEntry,
            ),
            (AppendPhase::CreatingDirectory, Event::DirectoryFailed) => self.stop(
                Err(JournalError::DirectoryCreateError),
            ),
            (AppendPhase::WritingEntry, Event::FileCreated)
            | (AppendPhase::WritingEntry, Event::FileExists)
            | (AppendPhase::WritingEntry, Event::FileFailed) => {
                let result = match event.write_failure() {
                    Some(error) => Err(error),
                    None => Ok(()),
                };
                self.stop(result)
            },
            _ => self,
        }
    }

    fn stop(self, result: Result<(), JournalError>) -> (next: Appender)
        ensures
            next@ == self@.stopped(result),
    {
        Appender {
            cwd: self.cwd,
            date: self.date,
            phase: AppendPhase::Finished,
            directory: self.directory,
            path: self.path,
            content: self.content,
            result,
        }
    }

    fn go(self, phase: AppendPhase) -> (next: Appender)
        ensures
            next@ == (AppendModel { phase, ..self@ }),
    {
        Appender {
            cwd: self.cwd,
            date: self.date,
            phase,
            directory: self.directory,
            path: self.path,
            content: self.content,
            result: self.result,
        }
    }
}

/// The numeral of an integer holds neither a slash nor an underscore.
proof fn lemma_decimal_has_no_separator(i: int)
    ensures
        !decimal(i).contains('/'),
        !decimal(i).contains('_'),
{
    lemma_decimal_chars(i);
    assert(!is_digit('/'));
    assert(!is_digit('_'));
}

/// The file name of an entry tells its day: two days with the same file
/// name are the same day.
pub proof fn lemma_file_name_tells_the_day(a: DateView, b: DateView)
    requires
        entry_file_name_text(a) == entry_file_name_text(b),
    ensures
        a == b,
{
    let tail_a = decimal(a.day) + ".md"@;
    let tail_b = decimal(b.day) + ".md"@;
    let rest_a = decimal(a.month) + seq!['_'] + tail_a;
    let rest_b = decimal(b.month) + seq!['_'] + tail_b;
    assert(entry_file_name_text(a) =~= decimal(a.year) + seq!['_'] + rest_a);
    assert(entry_file_name_text(b) =~= decimal(b.year) + seq!['_'] + rest_b);
    lemma_decimal_has_no_separator(a.year);
    lemma_decimal_has_no_separator(b.year);
    lemma_cut_at_separator(decimal(a.year), rest_a, decimal(b.year), rest_b, '_');
    lemma_decimal_has_no_separator(a.month);
    lemma_decimal_has_no_separator(b.month);
    lemma_cut_at_separator(decimal(a.month), tail_a, decimal(b.month), tail_b, '_');
    assert(decimal(a.day).len() == decimal(b.day).len()) by {
        assert(tail_a.len() == decimal(a.day).len() + ".md"@.len());
        assert(tail_b.len() == decimal(b.day).len() + ".md"@.len());
    }
    assert(tail_a.subrange(0, decimal(a.day).len() as int) =~= decimal(a.day));
    assert(tail_b.subrange(0, decimal(b.day).len() as int) =~= decimal(b.day));
    lemma_decimal_injective(a.year, b.year);
    lemma_decimal_injective(a.month, b.month);
    lemma_decimal_injective(a.day, b.day);
}

/// One entry per day: in one journal, the entries of two days lie at the
/// same path only if the days are the same.
pub proof fn lemma_one_entry_per_day(entry_path: Seq<char>, a: DateView, b: DateView)
    requires
        entry_path_text(entry_path, a) == entry_path_text(entry_path, b),
    ensures
        a == b,
{
    let name_a = entry_file_name_text(a);
    let name_b = entry_file_name_text(b);
    let rest_a = decimal(a.month) + seq!['/'] + name_a;
    let rest_b = decimal(b.month) + seq!['/'] + name_b;
    let tail_a = decimal(a.year) + seq!['/'] + rest_a;
    let tail_b = decimal(b.year) + seq!['/'] + rest_b;
    let head = entry_path + seq!['/'];
    assert(entry_path_text(entry_path, a) =~= head + tail_a);
    assert(entry_path_text(entry_path, b) =~= head + tail_b);
    assert((head + tail_a).skip(head.len() as int) =~= tail_a);
    assert((head + tail_b).skip(head.len() as int) =~= tail_b);
    lemma_decimal_has_no_separator(a.year);
    lemma_decimal_has_no_separator(b.year);
    lemma_cut_at_separator(decimal(a.year), rest_a, decimal(b.year), rest_b, '/');
    lemma_decimal_has_no_separator(a.month);
    lemma_decimal_has_no_separator(b.month);
    lemma_cut_at_separator(decimal(a.month), name_a, decimal(b.month), name_b, '/');
    lemma_file_name_tells_the_day(a, b);
}

} // verus!
