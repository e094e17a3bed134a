//! The top bar: label search, the tracked directories, the server status and
//! the progress of labeling.

use vstd::prelude::*;
use crate::app_state::{
    lemma_unlabeled_at_most_total, saturated, total_files, total_labeled, total_unlabeled,
    AppState, AppStateView,
};
use crate::components::ollama_settings::{OllamaSettings, OllamaSettingsView};
use crate::components::Component;
use crate::effects::{nothing, publish, published, Effect, EffectView};
use crate::enums::{BroadcastMsg, BroadcastMsgView, DirectoryFilesView, FileWithLabelView};
use crate::text::{list_contains, list_without, without};

verus! {

/// What the top bar shows about labeling.
#[derive(Clone, Copy, Debug, PartialEq, Eq, Structural)]
pub enum LabelingStatus {
    /// Every file has labels.
    AllDone,
    /// A sweep runs; so many files of so many have labels.
    Running(usize, usize),
    /// No sweep runs; so many files of so many have labels.
    Waiting(usize, usize),
}

/// The top bar's cache.
#[derive(Debug, PartialEq, Eq)]
pub struct TopPanel {
    action_tx: bool,
    input_text: String,
    picked_directories: Vec<String>,
    app_state: bool,
    ollama_button: OllamaSettings,
    ollama_connected: bool,
    non_labeled_imgs: usize,
    all_imgs_num: usize,
    is_labeling: bool,
}

pub struct TopPanelView {
    pub action_tx: bool,
    pub input_text: Seq<char>,
    pub picked_directories: Seq<Seq<char>>,
    pub app_state: bool,
    pub ollama_button: OllamaSettingsView,
    pub ollama_connected: bool,
    pub non_labeled_imgs: usize,
    pub all_imgs_num: usize,
    pub is_labeling: bool,
}

impl View for TopPanel {
    type V = TopPanelView;

    closed spec fn view(&self) -> TopPanelView {
        TopPanelView {
            action_tx: self.action_tx,
            input_text: self.input_text@,
            picked_directories: self.picked_directories.deep_view(),
            app_state: self.app_state,
            ollama_button: self.ollama_button@,
            ollama_connected: self.ollama_connected,
            non_labeled_imgs: self.non_labeled_imgs,
            all_imgs_num: self.all_imgs_num,
            is_labeling: self.is_labeling,
        }
    }
}

impl TopPanelView {
    /// The records that the panel can see: those of the shared state once it
    /// is connected to it, none before.
    pub open spec fn visible(self, state: AppStateView) -> Seq<DirectoryFilesView> {
        if self.app_state {
            state.dir_files
        } else {
            Seq::empty()
        }
    }

    /// The panel with its two counters computed anew from `state`.
    pub open spec fn recounted(self, state: AppStateView) -> TopPanelView {
        TopPanelView {
            non_labeled_imgs: saturated(total_unlabeled(self.visible(state))),
            all_imgs_num: saturated(total_files(self.visible(state))),
            ..self
        }
    }

    /// The number of labeled files: all files but the unlabeled ones.
    pub open spec fn labeled(self) -> usize {
        if self.non_labeled_imgs <= self.all_imgs_num {
            (self.all_imgs_num - self.non_labeled_imgs) as usize
        } else {
            0
        }
    }

    /// What the panel shows about labeling.
    pub open spec fn status(self) -> LabelingStatus {
        let labeled = self.labeled();
        if self.all_imgs_num == labeled {
            LabelingStatus::AllDone
        } else if self.is_labeling {
            LabelingStatus::Running(labeled, self.all_imgs_num)
        } else {
            LabelingStatus::Waiting(labeled, self.all_imgs_num)
        }
    }

    /// The panel after the user picked the directory `path`.
    pub open spec fn picked(self, path: Seq<char>) -> TopPanelView {
        if self.picked_directories.contains(path) {
            self
        } else {
            TopPanelView { picked_directories: self.picked_directories.push(path), ..self }
        }
    }

    /// The panel after the user removed the directory `path`.
    pub open spec fn removed(self, path: Seq<char>) -> TopPanelView {
        TopPanelView { picked_directories: without(self.picked_directories, path), ..self }
    }
}

/// After a count, the panel shows the number of files that have a label
/// and the number of all files, as long as both fit the counters.
pub proof fn lemma_status_counts_labeled_files(panel: TopPanelView, state: AppStateView)
    requires
        total_files(panel.visible(state)) <= usize::MAX,
    ensures
        panel.recounted(state).all_imgs_num == total_files(panel.visible(state)),
        panel.recounted(state).labeled() == total_labeled(panel.visible(state)),
        panel.recounted(state).status() is AllDone <==> total_unlabeled(panel.visible(state))
            == 0,
{
    lemma_unlabeled_at_most_total(panel.visible(state));
}

impl TopPanel {
    /// The view of a fresh value: not connected, with nothing cached.
    pub open spec fn new_view() -> TopPanelView {
        TopPanelView {
            action_tx: false,
            input_text: Seq::empty(),
            picked_directories: Seq::empty(),
            app_state: false,
            ollama_button: OllamaSettings::new_view(),
            ollama_connected: false,
            non_labeled_imgs: 0,
            all_imgs_num: 0,
            is_labeling: false,
        }
    }

    pub fn new() -> (panel: Self)
        ensures
            panel@ == Self::new_view(),
    {
        let picked_directories: Vec<String> = Vec::new();
        assert(picked_directories.deep_view() == Seq::<Seq<char>>::empty());
        TopPanel {
            action_tx: false,
            input_text: String::new(),
            picked_directories,
            app_state: false,
            ollama_connected: false,
            ollama_button: OllamaSettings::new(),
            non_labeled_imgs: 0,
            all_imgs_num: 0,
            is_labeling: false,
        }
    }

    /// The text of the search field.
    pub fn input_text(&self) -> (text: &String)
        ensures
            text@ == self@.input_text,
    {
        &self.input_text
    }

    /// The user edited the search field.
    pub fn set_input_text(&mut self, text: String)
        ensures
            final(self)@ == (TopPanelView { input_text: text@, ..old(self)@ }),
    {
        self.input_text = text;
    }

    /// The directories that the panel lists.
    pub fn picked_directories(&self) -> (dirs: &Vec<String>)
        ensures
            dirs.deep_view() == self@.picked_directories,
    {
        &self.picked_directories
    }

    /// Whether the last probe found the server.
    pub fn ollama_connected(&self) -> (connected: bool)
        ensures
            connected == self@.ollama_connected,
    {
        self.ollama_connected
    }

    /// The settings popup that the panel holds.
    pub fn ollama_button(&self) -> (button: &OllamaSettings)
        ensures
            button@ == self@.ollama_button,
    {
        &self.ollama_button
    }

    /// The user edited the address field of the settings popup.
    pub fn set_ollama_url(&mut self, url: String)
        ensures
            final(self)@ == (TopPanelView {
                ollama_button: OllamaSettingsView { url: url@, ..old(self)@.ollama_button },
                ..old(self)@
            }),
    {
        self.ollama_button.set_url(url);
    }

    /// Counts the files and the unlabeled files of all records anew.
    fn get_labeled_images(&mut self, app_state: &AppState)
        ensures
            final(self)@ == old(self)@.recounted(app_state@),
    {
        let mut non_labeled_imgs: usize = 0;
        let mut all_imgs_num: usize = 0;
        if self.app_state {
            let records = &app_state.dir_files;
            let mut i: usize = 0;
            while i < records.len()
                invariant
                    i <= records.len(),
                    all_imgs_num == saturated(total_files(records.deep_view().take(i as int))),
                    non_labeled_imgs == saturated(
                        total_unlabeled(records.deep_view().take(i as int)),
                    ),
                decreases records.len() - i,
            {
                let entries = &records[i].files_with_labels;
                let ghost seen = records.deep_view().take(i as int);
                let ghost next = records.deep_view().take(i + 1);
                assert(next.drop_last() == seen);
                assert(next.last() == records[i as int]@);
                all_imgs_num = if entries.len() > usize::MAX - all_imgs_num {
                    usize::MAX
                } else {
                    all_imgs_num + entries.len()
                };
                let mut j: usize = 0;
                let ghost empty = |e: FileWithLabelView| e.labels.len() == 0;
                proof {
                    reveal(Seq::filter);
                }
                assert(entries.deep_view().take(0) == Seq::<FileWithLabelView>::empty());
                while j < entries.len()
                    invariant
                        j <= entries.len(),
                        empty == |e: FileWithLabelView| e.labels.len() == 0,
                        non_labeled_imgs == saturated(
                            total_unlabeled(seen) + entries.deep_view().take(j as int).filter(
                                empty,
                            ).len(),
                        ),
                    decreases entries.len() - j,
                {
                    proof {
                        entries.deep_view().take(j as int).lemma_filter_push(entries[j as int]@, empty);
                        assert(entries.deep_view().take(j + 1) == entries.deep_view().take(
                            j as int,
                        ).push(entries[j as int]@));
                    }
                    if entries[j].labels.len() == 0 {
                        non_labeled_imgs = if non_labeled_imgs == usize::MAX {
                            usize::MAX
                        } else {
                            non_labeled_imgs + 1
                        };
                    }
                    j += 1;
                }
                assert(entries.deep_view().take(j as int) == entries.deep_view());
                i += 1;
            }
            assert(records.deep_view().take(i as int) == records.deep_view());
        }
        self.non_labeled_imgs = non_labeled_imgs;
        self.all_imgs_num = all_imgs_num;
    }

    /// The user picked the directory `path`. A directory that is listed
    /// already changes nothing; a new one is listed, recorded in the shared
    /// state and announced.
    pub fn pick_dir(&mut self, path: String, app_state: &mut AppState) -> (effects: Vec<Effect>)
        ensures
            final(self)@ == old(self)@.picked(path@),
            final(app_state)@ == if !old(self)@.picked_directories.contains(path@) && old(
                self,
            )@.app_state {
                AppStateView {
                    directories: final(self)@.picked_directories,
                    ..old(app_state)@
                }
            } else {
                old(app_state)@
            },
            effects.deep_view() == published(
                old(self)@.action_tx && !old(self)@.picked_directories.contains(path@),
                BroadcastMsgView::PickedDirectory(path@),
            ),
    {
        if !list_contains(&self.picked_directories, path.as_str()) {
            let ghost before = self.picked_directories.deep_view();
            self.picked_directories.push(path.clone());
            assert(self.picked_directories.deep_view() == before.push(path@));
            if self.app_state {
                app_state.directories = self.picked_directories.clone();
            }
            publish(self.action_tx, BroadcastMsg::PickedDirectory(path))
        } else {
            nothing()
        }
    }

    /// The user removed the directory `path`. A directory that is not listed
    /// changes nothing; a listed one leaves the list and the shared state,
    /// and its removal is announced.
    pub fn remove_directory(&mut self, path: String, app_state: &mut AppState) -> (effects: Vec<
        Effect,
    >)
        ensures
            final(self)@ == if old(self)@.picked_directories.contains(path@) {
                old(self)@.removed(path@)
            } else {
                old(self)@
            },
            final(app_state)@ == if old(self)@.picked_directories.contains(path@) && old(
                self,
            )@.app_state {
                old(app_state)@.without_directory(path@)
            } else {
                old(app_state)@
            },
            effects.deep_view() == published(
                old(self)@.action_tx && old(self)@.picked_directories.contains(path@),
                BroadcastMsgView::RemovedDirectory(path@),
            ),
    {
        if list_contains(&self.picked_directories, path.as_str()) {
            self.picked_directories = list_without(&self.picked_directories, path.as_str());
            if self.app_state {
                app_state.remove_directory(path.clone());
            }
            publish(self.action_tx, BroadcastMsg::RemovedDirectory(path))
        } else {
            nothing()
        }
    }

    /// The user submitted the search field.
    pub fn search(&self) -> (effects: Vec<Effect>)
        ensures
            effects.deep_view() == published(
                self@.action_tx,
                BroadcastMsgView::SearchByLabels(self@.input_text),
            ),
    {
        publish(self.action_tx, BroadcastMsg::SearchByLabels(self.input_text.clone()))
    }

    /// What to show about labeling: nothing to do, a running sweep, or a
    /// waiting one, with the number of labeled files and of all files.
    pub fn labeling_status(&self) -> (status: LabelingStatus)
        ensures
            status == self@.status(),
    {
        let labeled: usize = if self.non_labeled_imgs <= self.all_imgs_num {
            self.all_imgs_num - self.non_labeled_imgs
        } else {
            0
        };
        if self.all_imgs_num == labeled {
            LabelingStatus::AllDone
        } else if self.is_labeling {
            LabelingStatus::Running(labeled, self.all_imgs_num)
        } else {
            LabelingStatus::Waiting(labeled, self.all_imgs_num)
        }
    }

    /// The user pressed "start".
    pub fn start_labeling(&self) -> (effects: Vec<Effect>)
        ensures
            effects.deep_view() == published(self@.action_tx, BroadcastMsgView::StartLabeling),
    {
        publish(self.action_tx, BroadcastMsg::StartLabeling)
    }

    /// The user pressed "stop".
    pub fn stop_labeling(&self) -> (effects: Vec<Effect>)
        ensures
            effects.deep_view() == published(self@.action_tx, BroadcastMsgView::StopLabeling),
    {
        publish(self.action_tx, BroadcastMsg::StopLabeling)
    }
}

impl Component for TopPanel {
    open spec fn after(view: TopPanelView, msg: BroadcastMsgView, state: AppStateView) -> TopPanelView {
        let seen = TopPanelView {
            ollama_button: OllamaSettings::after(view.ollama_button, msg, state),
            ..view
        };
        match msg {
            BroadcastMsgView::OllamaRunning(verdict) => TopPanelView {
                ollama_connected: verdict is Ok,
                ..seen
            },
            BroadcastMsgView::StartLabeling => TopPanelView { is_labeling: true, ..seen },
            BroadcastMsgView::StopLabeling => TopPanelView { is_labeling: false, ..seen },
            BroadcastMsgView::DirectoryImages(_) => seen.recounted(state),
            BroadcastMsgView::RemovedDirectory(_) => seen.recounted(state),
            BroadcastMsgView::GetLabelsForImage(_, _) => seen.recounted(state),
            _ => seen,
        }
    }

    open spec fn effects(view: TopPanelView, msg: BroadcastMsgView, state: AppStateView) -> Seq<
        EffectView,
    > {
        Seq::empty()
    }

    fn register_tx(&mut self)
        ensures
            final(self)@ == (TopPanelView {
                action_tx: true,
                ollama_button: OllamaSettingsView { action_tx: true, ..old(self)@.ollama_button },
                ..old(self)@
            }),
    {
        self.ollama_button.register_tx();
        self.action_tx = true;
    }

    /// Takes over the directories that the shared state tracks.
    fn register_app_state(&mut self, app_state: &AppState)
        ensures
            final(self)@ == (TopPanelView {
                app_state: true,
                picked_directories: app_state@.directories,
                ..old(self)@
            }),
    {
        self.app_state = true;
        self.picked_directories = app_state.directories.clone();
    }

    /// Starts the status poll and counts the files for the first time.
    fn init(&mut self, app_state: &AppState) -> (effects: Vec<Effect>)
        ensures
            final(self)@ == old(self)@.recounted(app_state@),
            effects.deep_view() == if old(self)@.ollama_button.action_tx {
                seq![EffectView::Repeat(BroadcastMsgView::GetOllamaRunning)]
            } else {
                Seq::empty()
            },
    {
        let effects = self.ollama_button.init(app_state);
        self.get_labeled_images(app_state);
        effects
    }

    fn update(&mut self, msg: BroadcastMsg, app_state: &AppState) -> (effects: Vec<Effect>) {
        let effects = self.ollama_button.update(msg.clone(), app_state);
        match msg {
            BroadcastMsg::OllamaRunning(verdict) => {
                self.ollama_connected = verdict.is_ok();
            },
            BroadcastMsg::StartLabeling => {
                self.is_labeling = true;
            },
            BroadcastMsg::StopLabeling => {
                self.is_labeling = false;
            },
            BroadcastMsg::DirectoryImages(_) => {
                self.get_labeled_images(app_state);
            },
            BroadcastMsg::RemovedDirectory(_) => {
                self.get_labeled_images(app_state);
            },
            BroadcastMsg::GetLabelsForImage(_, _) => {
                self.get_labeled_images(app_state);
            },
            _ => {},
        }
        effects
    }
}

} // verus!
