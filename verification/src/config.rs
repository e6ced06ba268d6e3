//! The configuration that ties a journal to its directories.

use crate::path::{join, joined};
use vstd::prelude::*;
use vstd::string::*;

verus! {

/// The name of the configuration file, which lies in the working directory.
pub const CONFIG_FILE_NAME: &'static str = "journal-cli.yaml";

/// The template of a new journal: the date token as the title, then the
/// four headings of a reflective journal.
pub const DEFAULT_TEMPLATE: &'static str =
    "# {}\n\n## Concrete Experience (具体的経験)\n\n## Reflective Observation (省察)\n\n## Abstract Conceptualization (概念化):\n\n## Active Experimentation (試行):\n\n";

/// A configuration as the contracts see it.
pub struct ConfigView {
    pub entry_path: Seq<char>,
    pub article_path: Seq<char>,
    pub journal_template: Seq<char>,
}

impl ConfigView {
    /// The configuration of a new journal under `root`.
    pub open spec fn for_root(root: Seq<char>) -> ConfigView {
        ConfigView {
            entry_path: joined(root, "entries"@),
            article_path: joined(root, "articles"@),
            journal_template: DEFAULT_TEMPLATE@,
        }
    }
}

/// Where the entries and articles of a journal are kept, and the text that
/// a new entry starts from.
#[derive(Debug, PartialEq, Eq)]
pub struct JournalConfig {
    /// The directory under which the dated entries are stored.
    pub entry_path: String,
    /// The directory kept for article pages.
    pub article_path: String,
    /// The text of a new entry, with the token `{}` where the date goes.
    pub journal_template: String,
}

impl View for JournalConfig {
    type V = ConfigView;

    open spec fn view(&self) -> ConfigView {
        ConfigView {
            entry_path: self.entry_path@,
            article_path: self.article_path@,
            journal_template: self.journal_template@,
        }
    }
}

impl Clone for JournalConfig {
    fn clone(&self) -> (copy: JournalConfig)
        ensures
            copy@ == self@,
    {
        JournalConfig {
            entry_path: self.entry_path.clone(),
            article_path: self.article_path.clone(),
            journal_template: self.journal_template.clone(),
        }
    }
}

impl JournalConfig {
    /// The configuration of a new journal under `root`: entries under
    /// `<root>/entries`, articles under `<root>/articles`, and the default
    /// template.
    pub fn for_root(root: &str) -> (config: JournalConfig)
        ensures
            config@ == ConfigView::for_root(root@),
    {
        JournalConfig {
            entry_path: join(root, "entries"),
            article_path: join(root, "articles"),
            journal_template: String::from_str(DEFAULT_TEMPLATE),
        }
    }
}

} // verus!
