//! The shared application state and its reducers.
//!
//! The dispatch loop owns this state. Each bus event is applied to it before
//! any component sees the event.

use vstd::prelude::*;
use crate::config::DEFAULT_OLLAMA_URL;
use crate::effects::{Effect, EffectView};
use crate::enums::{
    AgentEnum, BroadcastMsg, BroadcastMsgView, DirectoryFiles, DirectoryFilesView, FileWithLabel,
    FileWithLabelView,
};
use crate::ollama_state::{OllamaState, OllamaStateView};
use crate::text::{label_list, list_without, parse_labels, str_eq, without};

verus! {

/// The facts that several components share: the server connection, the
/// selected agent, and the tracked directories with their files and labels.
#[derive(Debug, PartialEq, Eq)]
pub struct AppState {
    /// Whether this state has been connected to the bus.
    pub action_tx: bool,
    pub ollama_state: OllamaState,
    pub active_agent: AgentEnum,
    pub directories: Vec<String>,
    pub formats: Vec<String>,
    pub dir_files: Vec<DirectoryFiles>,
}

pub struct AppStateView {
    pub action_tx: bool,
    pub ollama_state: OllamaStateView,
    pub active_agent: AgentEnum,
    pub directories: Seq<Seq<char>>,
    pub formats: Seq<Seq<char>>,
    pub dir_files: Seq<DirectoryFilesView>,
}

impl View for AppState {
    type V = AppStateView;

    open spec fn view(&self) -> AppStateView {
        AppStateView {
            action_tx: self.action_tx,
            ollama_state: self.ollama_state@,
            active_agent: self.active_agent,
            directories: self.directories.deep_view(),
            formats: self.formats.deep_view(),
            dir_files: self.dir_files.deep_view(),
        }
    }
}

impl DeepView for AppState {
    type V = AppStateView;

    open spec fn deep_view(&self) -> AppStateView {
        self@
    }
}

/// Whether a record for the directory `dir` is among `records`.
pub open spec fn tracks(records: Seq<DirectoryFilesView>, dir: Seq<char>) -> bool {
    exists|i: int| 0 <= i < records.len() && #[trigger] records[i].dir == dir
}

/// The records of `records` for other directories than `dir`, in their order.
pub open spec fn without_record(records: Seq<DirectoryFilesView>, dir: Seq<char>) -> Seq<
    DirectoryFilesView,
> {
    records.filter(|r: DirectoryFilesView| r.dir != dir)
}

/// The number of files that `records` list.
pub open spec fn total_files(records: Seq<DirectoryFilesView>) -> nat
    decreases records.len(),
{
    if records.len() == 0 {
        0
    } else {
        total_files(records.drop_last()) + records.last().files_with_labels.len()
    }
}

/// The entries of `entries` whose label set is empty, in their order.
pub open spec fn unlabeled(entries: Seq<FileWithLabelView>) -> Seq<FileWithLabelView> {
    entries.filter(|e: FileWithLabelView| e.labels.len() == 0)
}

/// The number of files that `records` list without a label.
pub open spec fn total_unlabeled(records: Seq<DirectoryFilesView>) -> nat
    decreases records.len(),
{
    if records.len() == 0 {
        0
    } else {
        total_unlabeled(records.drop_last()) + unlabeled(records.last().files_with_labels).len()
    }
}

/// The entries of `entries` that have at least one label, in their order.
pub open spec fn labeled(entries: Seq<FileWithLabelView>) -> Seq<FileWithLabelView> {
    entries.filter(|e: FileWithLabelView| e.labels.len() > 0)
}

/// The number of files that `records` list with at least one label.
pub open spec fn total_labeled(records: Seq<DirectoryFilesView>) -> nat
    decreases records.len(),
{
    if records.len() == 0 {
        0
    } else {
        total_labeled(records.drop_last()) + labeled(records.last().files_with_labels).len()
    }
}

/// The paths of the unlabeled files of `records`: directory by directory, each in its order.
pub open spec fn unlabeled_files(records: Seq<DirectoryFilesView>) -> Seq<Seq<char>>
    decreases records.len(),
{
    if records.len() == 0 {
        Seq::empty()
    } else {
        unlabeled_files(records.drop_last()) + Seq::new(
            unlabeled(records.last().files_with_labels).len(),
            |i: int| unlabeled(records.last().files_with_labels)[i].file,
        )
    }
}

/// `n`, or the largest `usize` if `n` does not fit.
pub open spec fn saturated(n: nat) -> usize {
    if n > usize::MAX {
        usize::MAX
    } else {
        n as usize
    }
}

/// Every entry is either labeled or unlabeled.
pub proof fn lemma_labeled_or_unlabeled(entries: Seq<FileWithLabelView>)
    ensures
        labeled(entries).len() + unlabeled(entries).len() == entries.len(),
    decreases entries.len(),
{
    reveal(Seq::filter);
    if entries.len() > 0 {
        lemma_labeled_or_unlabeled(entries.drop_last());
    }
}

/// The labeled and the unlabeled files are all the files, and a sweep has
/// one file to visit for each unlabeled one.
pub proof fn lemma_unlabeled_at_most_total(records: Seq<DirectoryFilesView>)
    ensures
        total_labeled(records) + total_unlabeled(records) == total_files(records),
        total_unlabeled(records) <= total_files(records),
        unlabeled_files(records).len() == total_unlabeled(records),
    decreases records.len(),
{
    if records.len() > 0 {
        lemma_unlabeled_at_most_total(records.drop_last());
        lemma_labeled_or_unlabeled(records.last().files_with_labels);
    }
}

/// One entry without labels for each of `files`, in their order.
pub open spec fn unlabeled_entries(files: Seq<Seq<char>>) -> Seq<FileWithLabelView> {
    Seq::new(files.len(), |i: int| FileWithLabelView { file: files[i], labels: Seq::empty() })
}

/// Index of the first entry for `file`, or the length when there is none.
pub open spec fn first_entry(entries: Seq<FileWithLabelView>, file: Seq<char>) -> int
    decreases entries.len(),
{
    if entries.len() == 0 {
        0
    } else if entries[0].file == file {
        0
    } else {
        1 + first_entry(entries.drop_first(), file)
    }
}

/// `record` with `labels` stored on its first entry for `file`, if it has one.
pub open spec fn label_entry(record: DirectoryFilesView, file: Seq<char>, labels: Seq<Seq<char>>) -> DirectoryFilesView {
    let i = first_entry(record.files_with_labels, file);
    if 0 <= i < record.files_with_labels.len() {
        DirectoryFilesView {
            files_with_labels: record.files_with_labels.update(
                i,
                FileWithLabelView { file: record.files_with_labels[i].file, labels },
            ),
            ..record
        }
    } else {
        record
    }
}

impl AppStateView {
    /// The state of a first start: no directories, the chat agent active,
    /// the server expected at the default address.
    pub open spec fn fresh() -> AppStateView {
        AppStateView {
            action_tx: false,
            ollama_state: OllamaStateView {
                action_tx: false,
                url: DEFAULT_OLLAMA_URL@,
                models: Seq::empty(),
            },
            active_agent: AgentEnum::Chat,
            directories: Seq::empty(),
            formats: Seq::empty(),
            dir_files: Seq::empty(),
        }
    }

    /// The state without the directory `path` and without its record.
    pub open spec fn without_directory(self, path: Seq<char>) -> AppStateView {
        AppStateView {
            directories: without(self.directories, path),
            dir_files: without_record(self.dir_files, path),
            ..self
        }
    }

    /// The state with a record for `path` holding `files`, none of them
    /// labeled; unchanged if `path` has a record already.
    pub open spec fn with_files(self, path: Seq<char>, files: Seq<Seq<char>>) -> AppStateView {
        if tracks(self.dir_files, path) {
            self
        } else {
            AppStateView {
                dir_files: self.dir_files.push(
                    DirectoryFilesView { dir: path, files, files_with_labels: unlabeled_entries(files) },
                ),
                ..self
            }
        }
    }

    /// The state with `labels` stored for `file` in every directory that lists it.
    pub open spec fn with_labels(self, file: Seq<char>, labels: Seq<Seq<char>>) -> AppStateView {
        AppStateView {
            dir_files: Seq::new(
                self.dir_files.len(),
                |i: int| label_entry(self.dir_files[i], file, labels),
            ),
            ..self
        }
    }

    /// The state after `msg`: the reducer of the shared state.
    pub open spec fn reduce(self, msg: BroadcastMsgView) -> AppStateView {
        let state = AppStateView { ollama_state: self.ollama_state.reduce(msg), ..self };
        match msg {
            BroadcastMsgView::DirectoryFiles(path, files) => state.with_files(path, files),
            BroadcastMsgView::GetLabelsForImage(file, labels) => state.with_labels(
                file,
                label_list(labels),
            ),
            BroadcastMsgView::SelectAgent(agent) => AppStateView { active_agent: agent, ..state },
            _ => state,
        }
    }

    /// What `msg` asks of the host on behalf of the shared state.
    pub open spec fn effects(self, msg: BroadcastMsgView) -> Seq<EffectView> {
        self.ollama_state.effects(msg)
    }

    /// The state after the events `msgs`, applied in their order.
    pub open spec fn reduce_all(self, msgs: Seq<BroadcastMsgView>) -> AppStateView
        decreases msgs.len(),
    {
        if msgs.len() == 0 {
            self
        } else {
            self.reduce_all(msgs.drop_last()).reduce(msgs.last())
        }
    }
}

/// Each part of the shared state has its own events: the server address
/// changes only with a saved address, the model list only with an arrived
/// list, the active agent only with a selection, and the records only with
/// discovered files or arrived labels. The tracked directories, the formats
/// and the wiring are changed by no event.
pub proof fn lemma_reducer_paths(state: AppStateView, msg: BroadcastMsgView)
    ensures
        state.reduce(msg).action_tx == state.action_tx,
        state.reduce(msg).ollama_state.action_tx == state.ollama_state.action_tx,
        state.reduce(msg).directories == state.directories,
        state.reduce(msg).formats == state.formats,
        !(msg is SetOllamaURL) ==> state.reduce(msg).ollama_state.url == state.ollama_state.url,
        !(msg is SetOllamaModels) ==> state.reduce(msg).ollama_state.models
            == state.ollama_state.models,
        !(msg is SelectAgent) ==> state.reduce(msg).active_agent == state.active_agent,
        !(msg is DirectoryFiles || msg is GetLabelsForImage) ==> state.reduce(msg).dir_files
            == state.dir_files,
{
}

/// Labels never add or remove a file: after any event but the discovery of
/// a directory, every record lists the files it listed before, in their order.
pub proof fn lemma_labels_keep_the_files(state: AppStateView, file: Seq<char>, labels: Seq<Seq<char>>, i: int, j: int)
    requires
        0 <= i < state.dir_files.len(),
        0 <= j < state.dir_files[i].files_with_labels.len(),
    ensures
        state.with_labels(file, labels).dir_files.len() == state.dir_files.len(),
        state.with_labels(file, labels).dir_files[i].dir == state.dir_files[i].dir,
        state.with_labels(file, labels).dir_files[i].files_with_labels.len()
            == state.dir_files[i].files_with_labels.len(),
        state.with_labels(file, labels).dir_files[i].files_with_labels[j].file
            == state.dir_files[i].files_with_labels[j].file,
        state.with_labels(file, labels).dir_files[i].files_with_labels[j].labels == (if j
            == first_entry(state.dir_files[i].files_with_labels, file) {
            labels
        } else {
            state.dir_files[i].files_with_labels[j].labels
        }),
{
}

/// The first match is at `j` if there is a match there and none before.
proof fn lemma_first_entry(entries: Seq<FileWithLabelView>, file: Seq<char>, j: int)
    requires
        0 <= j <= entries.len(),
        forall|k: int| 0 <= k < j ==> entries[k].file != file,
        j < entries.len() ==> entries[j].file == file,
    ensures
        first_entry(entries, file) == j,
    decreases entries.len(),
{
    if entries.len() > 0 && j > 0 {
        lemma_first_entry(entries.drop_first(), file, j - 1);
    }
}

impl AppState {
    /// The state at startup: what was stored at the last shutdown, or, where
    /// nothing was stored, a state without directories that points at the
    /// default server address.
    pub fn new(stored: Option<AppState>) -> (state: Self)
        ensures
            match stored {
                Some(saved) => state@ == saved@,
                None => state@ == AppStateView::fresh(),
            },
    {
        match stored {
            Some(saved) => saved,
            None => {
                let state = AppState {
                    action_tx: false,
                    ollama_state: OllamaState::new(None, DEFAULT_OLLAMA_URL.to_owned()),
                    active_agent: AgentEnum::Chat,
                    directories: Vec::new(),
                    formats: Vec::new(),
                    dir_files: Vec::new(),
                };
                assert(state.directories.deep_view() == Seq::<Seq<char>>::empty());
                assert(state.formats.deep_view() == Seq::<Seq<char>>::empty());
                assert(state.dir_files.deep_view() == Seq::<DirectoryFilesView>::empty());
                state
            },
        }
    }

    /// Starts the server state: the first probe and the first model list.
    pub fn init(&mut self) -> (effects: Vec<Effect>)
        ensures
            final(self)@ == old(self)@,
            effects.deep_view() == old(self)@.ollama_state.probes(),
    {
        self.ollama_state.init()
    }

    /// Forgets the directory `path` and the record of its files.
    pub fn remove_directory(&mut self, path: String)
        ensures
            final(self)@ == old(self)@.without_directory(path@),
    {
        self.directories = list_without(&self.directories, path.as_str());
        let mut kept: Vec<DirectoryFiles> = Vec::new();
        let mut i: usize = 0;
        let ghost keep = |r: DirectoryFilesView| r.dir != path@;
        assert(self.dir_files.deep_view().take(0) == Seq::<DirectoryFilesView>::empty());
        assert(kept.deep_view() == Seq::<DirectoryFilesView>::empty());
        proof {
            reveal(Seq::filter);
        }
        while i < self.dir_files.len()
            invariant
                i <= self.dir_files.len(),
                keep == |r: DirectoryFilesView| r.dir != path@,
                kept.deep_view() == self.dir_files.deep_view().take(i as int).filter(keep),
            decreases self.dir_files.len() - i,
        {
            let ghost seen = self.dir_files.deep_view().take(i as int);
            let ghost before = kept.deep_view();
            let record = &self.dir_files[i];
            proof {
                seen.lemma_filter_push(record@, keep);
                assert(self.dir_files.deep_view().take(i + 1) == seen.push(record@));
            }
            if !str_eq(record.dir.as_str(), path.as_str()) {
                kept.push(record.clone());
                assert(kept.deep_view() == before.push(record@));
            }
            i += 1;
        }
        assert(self.dir_files.deep_view().take(i as int) == self.dir_files.deep_view());
        self.dir_files = kept;
    }

    /// Whether a record for `dir` exists.
    fn has_record(&self, dir: &str) -> (found: bool)
        ensures
            found == tracks(self@.dir_files, dir@),
    {
        let mut i: usize = 0;
        while i < self.dir_files.len()
            invariant
                i <= self.dir_files.len(),
                forall|k: int| 0 <= k < i ==> self.dir_files.deep_view()[k].dir != dir@,
            decreases self.dir_files.len() - i,
        {
            if str_eq(self.dir_files[i].dir.as_str(), dir) {
                assert(self.dir_files.deep_view()[i as int].dir == dir@);
                return true;
            }
            i += 1;
        }
        false
    }

    fn save_files_from_dir(&mut self, path: String, files: Vec<String>)
        ensures
            final(self)@ == old(self)@.with_files(path@, files.deep_view()),
    {
        if !self.has_record(path.as_str()) {
            let mut entries: Vec<FileWithLabel> = Vec::new();
            let mut i: usize = 0;
            while i < files.len()
                invariant
                    i <= files.len(),
                    entries.deep_view() == unlabeled_entries(files.deep_view().take(i as int)),
                decreases files.len() - i,
            {
                let ghost before = entries.deep_view();
                let labels: Vec<String> = Vec::new();
                assert(labels.deep_view() == Seq::<Seq<char>>::empty());
                let entry = FileWithLabel { file: files[i].clone(), labels };
                entries.push(entry);
                assert(entries.deep_view() == before.push(entry@));
                i += 1;
                assert(entries.deep_view() == unlabeled_entries(files.deep_view().take(i as int)));
            }
            assert(files.deep_view().take(i as int) == files.deep_view());
            let ghost before = self.dir_files.deep_view();
            let record = DirectoryFiles { dir: path, files, files_with_labels: entries };
            self.dir_files.push(record);
            assert(self.dir_files.deep_view() == before.push(record@));
        }
    }

    fn add_labels_to_file(&mut self, file: String, labels: String)
        ensures
            final(self)@ == old(self)@.with_labels(file@, label_list(labels@)),
    {
        let parsed = parse_labels(labels.as_str());
        let mut i: usize = 0;
        while i < self.dir_files.len()
            invariant
                i <= self.dir_files.len(),
                self.dir_files.len() == old(self).dir_files.len(),
                parsed.deep_view() == label_list(labels@),
                self.action_tx == old(self).action_tx,
                self.ollama_state == old(self).ollama_state,
                self.active_agent == old(self).active_agent,
                self.directories == old(self).directories,
                self.formats == old(self).formats,
                forall|k: int|
                    0 <= k < i ==> self.dir_files.deep_view()[k] == label_entry(
                        old(self).dir_files.deep_view()[k],
                        file@,
                        parsed.deep_view(),
                    ),
                forall|k: int|
                    i <= k < self.dir_files.len() ==> self.dir_files.deep_view()[k] == old(
                        self,
                    ).dir_files.deep_view()[k],
            decreases self.dir_files.len() - i,
        {
            let ghost record = self.dir_files.deep_view()[i as int];
            let mut j: usize = 0;
            let n = self.dir_files[i].files_with_labels.len();
            while j < n && !str_eq(self.dir_files[i].files_with_labels[j].file.as_str(), file.as_str())
                invariant
                    i < self.dir_files.len(),
                    j <= n,
                    n == self.dir_files[i as int].files_with_labels.len(),
                    record == self.dir_files.deep_view()[i as int],
                    forall|k: int| 0 <= k < j ==> record.files_with_labels[k].file != file@,
                decreases n - j,
            {
                j += 1;
            }
            proof {
                lemma_first_entry(record.files_with_labels, file@, j as int);
            }
            if j < n {
                let ghost before = self.dir_files.deep_view();
                self.dir_files[i].files_with_labels[j].labels = parsed.clone();
                proof {
                    let stored = self.dir_files[i as int]@;
                    assert(stored.files_with_labels == record.files_with_labels.update(
                        j as int,
                        FileWithLabelView {
                            file: record.files_with_labels[j as int].file,
                            labels: parsed.deep_view(),
                        },
                    ));
                    assert(stored == label_entry(record, file@, parsed.deep_view()));
                    assert(self.dir_files.deep_view() == before.update(i as int, stored));
                }
            }
            i += 1;
        }
        assert(self.dir_files.deep_view() == old(self)@.with_labels(
            file@,
            label_list(labels@),
        ).dir_files);
    }

    /// Applies one bus event to the shared state.
    ///
    /// The server state sees every event first. A discovered directory gets a
    /// record unless it has one; labels that a sweep produced are stored on
    /// the file they belong to; a selected agent becomes the active one.
    pub fn update(&mut self, msg: BroadcastMsg) -> (effects: Vec<Effect>)
        ensures
            final(self)@ == old(self)@.reduce(msg@),
            effects.deep_view() == old(self)@.effects(msg@),
    {
        let effects = self.ollama_state.update(msg.clone());
        match msg {
            BroadcastMsg::DirectoryFiles(path, files) => {
                self.save_files_from_dir(path, files);
            },
            BroadcastMsg::GetLabelsForImage(file, labels) => {
                self.add_labels_to_file(file, labels);
            },
            BroadcastMsg::SelectAgent(agent) => {
                self.active_agent = agent;
            },
            _ => {},
        }
        effects
    }

    /// Connects this state and the server state within it to the bus.
    pub fn register_tx(&mut self)
        ensures
            final(self)@ == (AppStateView {
                action_tx: true,
                ollama_state: OllamaStateView { action_tx: true, ..old(self)@.ollama_state },
                ..old(self)@
            }),
    {
        self.ollama_state.register_tx();
        self.action_tx = true;
    }
}

} // verus!
