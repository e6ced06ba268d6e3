//! An orderly disk, on which the two operations are carried out in thought:
//! every action succeeds unless something lies in its way. What the
//! operations promise of the file system is stated and proved here.

use crate::action::{ActionView, EventView};
use crate::config::{ConfigView, CONFIG_FILE_NAME, DEFAULT_TEMPLATE};
use crate::date::DateView;
use crate::entry::{
    entry_content_text, entry_directory_text, entry_file_name_text, entry_path_text, AppendModel,
    AppendPhase, PageKind,
};
use crate::error::JournalError;
use crate::init::{
    boilerplate_content, boilerplate_name, InitModel, InitPhase, BOILERPLATE_COUNT,
};
use crate::path::joined;
use vstd::prelude::*;

verus! {

/// What lies at a path.
pub enum Node {
    Directory,
    File { content: Seq<char> },
    /// A configuration file. What was stored is what is loaded again.
    Config { config: ConfigView },
}

/// The paths of a disk and what lies at each.
pub struct Disk {
    pub nodes: Map<Seq<char>, Node>,
}

impl Disk {
    /// True when something lies at `path`.
    pub open spec fn holds(self, path: Seq<char>) -> bool {
        self.nodes.dom().contains(path)
    }

    /// The disk with `node` put at `path`.
    pub open spec fn with(self, path: Seq<char>, node: Node) -> Disk {
        Disk { nodes: self.nodes.insert(path, node) }
    }

    /// True when everything on this disk lies unchanged on `later`.
    pub open spec fn kept_by(self, later: Disk) -> bool {
        forall|path: Seq<char>| #[trigger]
            self.holds(path) ==> later.holds(path) && later.nodes[path] == self.nodes[path]
    }

    /// The disk after `action`, and the event that reports it. Probing,
    /// loading and finishing leave the disk as it is; creating puts a node
    /// where nothing was, and never replaces one.
    pub open spec fn answer(self, action: ActionView) -> (Disk, EventView) {
        match action {
            ActionView::Probe { path } => (self, EventView::Probed { exists: self.holds(path) }),
            ActionView::CreateDirectory { path } => if !self.holds(path) {
                (self.with(path, Node::Directory), EventView::DirectoryCreated)
            } else if self.nodes[path] is Directory {
                (self, EventView::DirectoryCreated)
            } else {
                (self, EventView::DirectoryFailed)
            },
            ActionView::CreateFile { path, content } => if self.holds(path) {
                (self, EventView::FileExists)
            } else {
                (self.with(path, Node::File { content }), EventView::FileCreated)
            },
            ActionView::StoreConfig { path, config } => if self.holds(path) {
                (self, EventView::FileExists)
            } else {
                (self.with(path, Node::Config { config }), EventView::FileCreated)
            },
            ActionView::LoadConfig { path } => if !self.holds(path) {
                (self, EventView::ConfigMissing)
            } else {
                match self.nodes[path] {
                    Node::Config { config } => (self, EventView::ConfigLoaded { config }),
                    _ => (self, EventView::ConfigMalformed),
                }
            },
            ActionView::Finish { result } => (self, EventView::Probed { exists: false }),
        }
    }
}

/// The number of actions that the creation of a journal can take.
pub open spec fn init_steps() -> nat {
    8
}

/// The number of actions that the adding of a page can take.
pub open spec fn append_steps() -> nat {
    4
}

/// The creation of a journal carried on for at most `steps` actions.
pub open spec fn run_init(disk: Disk, model: InitModel, steps: nat) -> (Disk, InitModel)
    decreases steps,
{
    if steps == 0 || model.phase == InitPhase::Finished {
        (disk, model)
    } else {
        let (next, event) = disk.answer(model.pending());
        run_init(next, model.advance(event), (steps - 1) as nat)
    }
}

/// The adding of a page carried on for at most `steps` actions.
pub open spec fn run_append(disk: Disk, model: AppendModel, steps: nat) -> (Disk, AppendModel)
    decreases steps,
{
    if steps == 0 || model.phase == AppendPhase::Finished {
        (disk, model)
    } else {
        let (next, event) = disk.answer(model.pending());
        run_append(next, model.advance(event), (steps - 1) as nat)
    }
}

/// The disk after the journal `name` was created from the working directory
/// `cwd`, and the result of the operation.
pub open spec fn initialize(disk: Disk, cwd: Seq<char>, name: Seq<char>) -> (
    Disk,
    Result<(), JournalError>,
) {
    let (after, model) = run_init(disk, InitModel::start(cwd, name), init_steps());
    (after, model.result())
}

/// The disk after a page of `kind` was added for the day `date` from the
/// working directory `cwd`, and the result of the operation.
pub open spec fn add_page(disk: Disk, kind: PageKind, cwd: Seq<char>, date: DateView) -> (
    Disk,
    Result<(), JournalError>,
) {
    let (after, model) = run_append(disk, AppendModel::start(kind, cwd, date), append_steps());
    (after, model.result)
}

/// The disk with the `index`-th file of a new journal under `root`.
pub open spec fn with_boilerplate(disk: Disk, root: Seq<char>, index: int) -> Disk {
    disk.with(
        joined(root, boilerplate_name(index)),
        Node::File { content: boilerplate_content(index) },
    )
}

/// The disk with a new journal `name` made from the working directory
/// `cwd`: the root directory, the four files under it, and the
/// configuration file in the working directory.
pub open spec fn with_journal(disk: Disk, cwd: Seq<char>, name: Seq<char>) -> Disk {
    let root = joined(cwd, name);
    let rooted = disk.with(root, Node::Directory);
    let filled = with_boilerplate(
        with_boilerplate(with_boilerplate(with_boilerplate(rooted, root, 0), root, 1), root, 2),
        root,
        3,
    );
    filled.with(
        joined(cwd, CONFIG_FILE_NAME@),
        Node::Config { config: ConfigView::for_root(root) },
    )
}

/// The disk with the directory `path`, if nothing lies there yet.
pub open spec fn with_directory(disk: Disk, path: Seq<char>) -> Disk {
    if disk.holds(path) {
        disk
    } else {
        disk.with(path, Node::Directory)
    }
}

/// No action removes or changes what lies on the disk.
pub proof fn lemma_answer_keeps(disk: Disk, action: ActionView)
    ensures
        disk.kept_by(disk.answer(action).0),
{
}

/// The creation of a journal removes and changes nothing that lies on the
/// disk, however far it is carried.
pub proof fn lemma_run_init_keeps(disk: Disk, model: InitModel, steps: nat)
    ensures
        disk.kept_by(run_init(disk, model, steps).0),
    decreases steps,
{
    if steps != 0 && model.phase != InitPhase::Finished {
        let (next, event) = disk.answer(model.pending());
        lemma_answer_keeps(disk, model.pending());
        lemma_run_init_keeps(next, model.advance(event), (steps - 1) as nat);
        let last = run_init(disk, model, steps).0;
        assert forall|path: Seq<char>| #[trigger] disk.holds(path) implies last.holds(path)
            && last.nodes[path] == disk.nodes[path] by {
            assert(next.holds(path));
        }
    }
}

/// The adding of a page removes and changes nothing that lies on the disk,
/// however far it is carried.
pub proof fn lemma_run_append_keeps(disk: Disk, model: AppendModel, steps: nat)
    ensures
        disk.kept_by(run_append(disk, model, steps).0),
    decreases steps,
{
    if steps != 0 && model.phase != AppendPhase::Finished {
        let (next, event) = disk.answer(model.pending());
        lemma_answer_keeps(disk, model.pending());
        lemma_run_append_keeps(next, model.advance(event), (steps - 1) as nat);
        let last = run_append(disk, model, steps).0;
        assert forall|path: Seq<char>| #[trigger] disk.holds(path) implies last.holds(path)
            && last.nodes[path] == disk.nodes[path] by {
            assert(next.holds(path));
        }
    }
}

/// The creation of a journal comes to its end within `init_steps` actions.
pub proof fn lemma_initialize_finishes(disk: Disk, cwd: Seq<char>, name: Seq<char>)
    ensures
        run_init(disk, InitModel::start(cwd, name), init_steps()).1.phase == InitPhase::Finished,
{
    reveal_with_fuel(run_init, 9);
}

/// Whatever the creation of a journal comes to, every file and directory
/// that was on the disk before is there afterwards, unchanged.
pub proof fn lemma_initialize_keeps(disk: Disk, cwd: Seq<char>, name: Seq<char>)
    ensures
        disk.kept_by(initialize(disk, cwd, name).0),
{
    lemma_run_init_keeps(disk, InitModel::start(cwd, name), init_steps());
}

/// Where the root of the journal is already there, nothing is created and
/// the operation reports `AlreadyExists`.
pub proof fn lemma_existing_root_is_kept(disk: Disk, cwd: Seq<char>, name: Seq<char>)
    requires
        disk.holds(joined(cwd, name)),
    ensures
        initialize(disk, cwd, name) == (disk, Err::<(), JournalError>(JournalError::AlreadyExists)),
{
    reveal_with_fuel(run_init, 3);
}

/// Where the working directory already holds a configuration file, nothing
/// is created and the operation reports `AlreadyExists`, whether the root
/// is there or not.
pub proof fn lemma_existing_config_is_kept(disk: Disk, cwd: Seq<char>, name: Seq<char>)
    requires
        disk.holds(joined(cwd, CONFIG_FILE_NAME@)),
    ensures
        initialize(disk, cwd, name) == (disk, Err::<(), JournalError>(JournalError::AlreadyExists)),
{
    reveal_with_fuel(run_init, 3);
}

/// Where neither the root nor the configuration file is there, and nothing
/// lies where the files of the journal go, the journal is created and the
/// operation succeeds. A journal cannot have the name of the configuration
/// file.
pub proof fn lemma_initialize_creates(disk: Disk, cwd: Seq<char>, name: Seq<char>)
    requires
        name != CONFIG_FILE_NAME@,
        !disk.holds(joined(cwd, name)),
        !disk.holds(joined(cwd, CONFIG_FILE_NAME@)),
        forall|index: int|
            0 <= index < BOILERPLATE_COUNT ==> !disk.holds(
                #[trigger] joined(joined(cwd, name), boilerplate_name(index)),
            ),
    ensures
        initialize(disk, cwd, name) == (with_journal(disk, cwd, name), Ok::<(), JournalError>(())),
{
    reveal_with_fuel(run_init, 9);
    reveal_strlit("journal-cli.yaml");
    reveal_strlit("README.md");
    reveal_strlit("TODO.md");
    reveal_strlit("CHANGELOG.md");
    reveal_strlit("CONTRIBUTING.md");
    let root = joined(cwd, name);
    let config_path = joined(cwd, CONFIG_FILE_NAME@);
    assert(root != config_path) by {
        assert(root.skip(cwd.len() as int + 1) =~= name);
        assert(config_path.skip(cwd.len() as int + 1) =~= CONFIG_FILE_NAME@);
    }
    assert forall|index: int| 0 <= index < BOILERPLATE_COUNT implies {
        let path = #[trigger] joined(root, boilerplate_name(index));
        &&& path != root
        &&& path != config_path
        &&& path.len() == root.len() + 1 + boilerplate_name(index).len()
    } by {
        let path = joined(root, boilerplate_name(index));
        assert(path.last() == 'd');
        assert(config_path.last() == 'l');
    }
    assert(!disk.holds(joined(root, boilerplate_name(0))));
    assert(!disk.holds(joined(root, boilerplate_name(1))));
    assert(!disk.holds(joined(root, boilerplate_name(2))));
    assert(!disk.holds(joined(root, boilerplate_name(3))));
}

/// The adding of an entry comes to its end within `append_steps` actions.
pub proof fn lemma_add_page_finishes(disk: Disk, kind: PageKind, cwd: Seq<char>, date: DateView)
    ensures
        run_append(disk, AppendModel::start(kind, cwd, date), append_steps()).1.phase
            == AppendPhase::Finished,
{
    reveal_with_fuel(run_append, 5);
}

/// Whatever the adding of a page comes to, every file and directory that
/// was on the disk before is there afterwards, unchanged.
pub proof fn lemma_add_page_keeps(disk: Disk, kind: PageKind, cwd: Seq<char>, date: DateView)
    ensures
        disk.kept_by(add_page(disk, kind, cwd, date).0),
{
    lemma_run_append_keeps(disk, AppendModel::start(kind, cwd, date), append_steps());
}

/// Adding an article does nothing to the disk and reports no error.
pub proof fn lemma_article_is_no_op(disk: Disk, cwd: Seq<char>, date: DateView)
    ensures
        add_page(disk, PageKind::Article, cwd, date) == (disk, Ok::<(), JournalError>(())),
{
    reveal_with_fuel(run_append, 2);
}

/// Without a configuration file in the working directory no entry is
/// added: the operation reports `ConfigNotFound` and leaves the disk as it
/// is.
pub proof fn lemma_entry_needs_config(disk: Disk, cwd: Seq<char>, date: DateView)
    requires
        !disk.holds(joined(cwd, CONFIG_FILE_NAME@)),
    ensures
        add_page(disk, PageKind::Entry, cwd, date) == (
            disk,
            Err::<(), JournalError>(JournalError::ConfigNotFound),
        ),
{
    reveal_with_fuel(run_append, 3);
}

/// With something else than a configuration in the place of the
/// configuration file no entry is added: the operation reports
/// `ConfigParseError` and leaves the disk as it is.
pub proof fn lemma_entry_needs_valid_config(disk: Disk, cwd: Seq<char>, date: DateView)
    requires
        disk.holds(joined(cwd, CONFIG_FILE_NAME@)),
        !(disk.nodes[joined(cwd, CONFIG_FILE_NAME@)] is Config),
    ensures
        add_page(disk, PageKind::Entry, cwd, date) == (
            disk,
            Err::<(), JournalError>(JournalError::ConfigParseError),
        ),
{
    reveal_with_fuel(run_append, 3);
}

/// With a configuration in the working directory and nothing in the place
/// of the entry file, the entry of the day is added: the directory of the
/// month is created if it is missing, and the entry file is written with
/// the template of the configuration, the date stamp in place of the
/// token.
pub proof fn lemma_first_entry_is_written(
    disk: Disk,
    cwd: Seq<char>,
    date: DateView,
    config: ConfigView,
)
    requires
        disk.holds(joined(cwd, CONFIG_FILE_NAME@)),
        disk.nodes[joined(cwd, CONFIG_FILE_NAME@)] == (Node::Config { config }),
        !disk.holds(entry_path_text(config.entry_path, date)),
    ensures
        add_page(disk, PageKind::Entry, cwd, date) == (
            with_directory(disk, entry_directory_text(config.entry_path, date)).with(
                entry_path_text(config.entry_path, date),
                Node::File { content: entry_content_text(config.journal_template, date) },
            ),
            Ok::<(), JournalError>(()),
        ),
{
    reveal_with_fuel(run_append, 5);
    let directory = entry_directory_text(config.entry_path, date);
    let path = entry_path_text(config.entry_path, date);
    assert(path.len() == directory.len() + 1 + entry_file_name_text(date).len());
    assert(path != directory);
}

/// With a configuration in the working directory and something in the
/// place of the entry file, no entry is written: the operation reports
/// `AlreadyExists`, and what lies there stays.
pub proof fn lemma_taken_entry_is_refused(
    disk: Disk,
    cwd: Seq<char>,
    date: DateView,
    config: ConfigView,
)
    requires
        disk.holds(joined(cwd, CONFIG_FILE_NAME@)),
        disk.nodes[joined(cwd, CONFIG_FILE_NAME@)] == (Node::Config { config }),
        disk.holds(entry_path_text(config.entry_path, date)),
    ensures
        add_page(disk, PageKind::Entry, cwd, date) == (
            with_directory(disk, entry_directory_text(config.entry_path, date)),
            Err::<(), JournalError>(JournalError::AlreadyExists),
        ),
{
    reveal_with_fuel(run_append, 5);
    let directory = entry_directory_text(config.entry_path, date);
    let path = entry_path_text(config.entry_path, date);
    assert(path.len() == directory.len() + 1 + entry_file_name_text(date).len());
    assert(path != directory);
}

/// A journal that was just created takes the entry of any day whose place
/// is free: the entry lies under `<root>/entries`, in the directory of its
/// month, and holds the default template with the date stamp of the day.
pub proof fn lemma_new_journal_takes_entry(
    disk: Disk,
    cwd: Seq<char>,
    name: Seq<char>,
    date: DateView,
)
    requires
        !disk.holds(entry_path_text(joined(joined(cwd, name), "entries"@), date)),
    ensures
        ({
            let entries = joined(joined(cwd, name), "entries"@);
            let journal = with_journal(disk, cwd, name);
            add_page(journal, PageKind::Entry, cwd, date) == (
                with_directory(journal, entry_directory_text(entries, date)).with(
                    entry_path_text(entries, date),
                    Node::File { content: entry_content_text(DEFAULT_TEMPLATE@, date) },
                ),
                Ok::<(), JournalError>(()),
            )
        }),
{
    reveal_strlit("journal-cli.yaml");
    reveal_strlit("README.md");
    reveal_strlit("TODO.md");
    reveal_strlit("CHANGELOG.md");
    reveal_strlit("CONTRIBUTING.md");
    reveal_strlit("entries");
    reveal_strlit(".md");
    let root = joined(cwd, name);
    let entries = joined(root, "entries"@);
    let config = ConfigView::for_root(root);
    let journal = with_journal(disk, cwd, name);
    let path = entry_path_text(entries, date);
    let config_path = joined(cwd, CONFIG_FILE_NAME@);
    assert(config.entry_path =~= entries);
    assert(path.last() == 'd');
    assert(config_path.last() == 'l');
    assert(path.len() > root.len() + 1);
    assert(path[root.len() as int + 1] == 'e');
    assert forall|index: int| 0 <= index < BOILERPLATE_COUNT implies path != #[trigger] joined(
        root,
        boilerplate_name(index),
    ) by {
        assert(joined(root, boilerplate_name(index))[root.len() as int + 1] != 'e');
    }
    assert(path != joined(root, boilerplate_name(0)));
    assert(path != joined(root, boilerplate_name(1)));
    assert(path != joined(root, boilerplate_name(2)));
    assert(path != joined(root, boilerplate_name(3)));
    assert(!journal.holds(path));
    lemma_first_entry_is_written(journal, cwd, date, config);
}

/// Once the entry of a day has been added, adding it again on the same day
/// is refused with `AlreadyExists` and leaves the disk as the first time
/// left it: the directory of the month is not created again, and the first
/// entry stays as it was written.
pub proof fn lemma_second_entry_is_refused(disk: Disk, cwd: Seq<char>, date: DateView)
    requires
        add_page(disk, PageKind::Entry, cwd, date).1 is Ok,
    ensures
        ({
            let first = add_page(disk, PageKind::Entry, cwd, date).0;
            add_page(first, PageKind::Entry, cwd, date) == (
                first,
                Err::<(), JournalError>(JournalError::AlreadyExists),
            )
        }),
{
    reveal_with_fuel(run_append, 5);
    let start = AppendModel::start(PageKind::Entry, cwd, date);
    let first = add_page(disk, PageKind::Entry, cwd, date).0;
    lemma_add_page_keeps(disk, PageKind::Entry, cwd, date);
    let config_path = joined(cwd, CONFIG_FILE_NAME@);
    assert(disk.holds(config_path));
    assert(first.holds(config_path));
    let loaded = start.advance(disk.answer(start.pending()).1);
    assert(loaded.path.len() == loaded.directory.len() + 1 + entry_file_name_text(date).len());
    assert(loaded.path != loaded.directory);
}

} // verus!
