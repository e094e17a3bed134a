//! The labeling sweep: one vision request per unlabeled file, one at a time.

use vstd::prelude::*;
use crate::app_state::{
    lemma_unlabeled_at_most_total, total_unlabeled, unlabeled, unlabeled_files, AppState,
    AppStateView,
};
use crate::components::{get_ollama_url, ollama_endpoint, Component};
use crate::config::LABEL_PROMPT;
use crate::effects::{
    nothing, only, publish, published, Effect, EffectView, GenerationRequest,
    GenerationRequestView, Reply, ReplyView,
};
use crate::enums::{
    BroadcastMsg, BroadcastMsgView, DirectoryFilesView, FileWithLabelView, ImageBase64Search,
    ImageBase64SearchView,
};
use crate::ollama_state::first_vision_model;
use crate::utils::{encoded, img_path_to_base64};

verus! {

/// The sweep's state: the files that still wait for their labels.
///
/// The files are taken from the end of the list, so the file discovered last
/// is labeled first.
#[derive(Debug, PartialEq, Eq)]
pub struct Labeler {
    action_tx: bool,
    app_state: bool,
    files_to_label: Vec<String>,
}

pub struct LabelerView {
    pub action_tx: bool,
    pub app_state: bool,
    pub files_to_label: Seq<Seq<char>>,
}

impl View for Labeler {
    type V = LabelerView;

    closed spec fn view(&self) -> LabelerView {
        LabelerView {
            action_tx: self.action_tx,
            app_state: self.app_state,
            files_to_label: self.files_to_label.deep_view(),
        }
    }
}

/// The request that asks the vision model `model` for the labels of `image`.
pub open spec fn label_request(
    endpoint: (Seq<char>, u16),
    model: Seq<char>,
    file: Seq<char>,
    image: ImageBase64SearchView,
) -> GenerationRequestView {
    GenerationRequestView {
        url: endpoint.0,
        port: endpoint.1,
        model,
        prompt: LABEL_PROMPT@,
        system: None,
        image: Some(image),
        deterministic: true,
        structured: false,
        reply: ReplyView::Labels(file),
    }
}

impl LabelerView {
    /// The shared state as the sweep sees it: absent until it is connected.
    pub open spec fn shared(self, state: AppStateView) -> Option<AppStateView> {
        if self.app_state {
            Some(state)
        } else {
            None
        }
    }

    /// The records that the sweep can see.
    pub open spec fn visible(self, state: AppStateView) -> Seq<DirectoryFilesView> {
        match self.shared(state) {
            Some(shared) => shared.dir_files,
            None => Seq::empty(),
        }
    }

    /// The vision model that the sweep uses, if the server offers one.
    pub open spec fn vision_model(self, state: AppStateView) -> Option<Seq<char>> {
        match self.shared(state) {
            Some(shared) => first_vision_model(shared.ollama_state.models),
            None => None,
        }
    }

    /// The sweep after its next step: the last waiting file is taken and is
    /// to be read; with no file waiting the sweep stays as it is.
    pub open spec fn stepped(self) -> LabelerView {
        if self.files_to_label.len() > 0 {
            LabelerView { files_to_label: self.files_to_label.drop_last(), ..self }
        } else {
            self
        }
    }

    /// What the next step asks of the host: to read the file taken, or, with
    /// no file waiting, to announce the end of the sweep.
    pub open spec fn step_effects(self) -> Seq<EffectView> {
        if self.files_to_label.len() > 0 {
            seq![EffectView::ReadLabelImage(self.files_to_label.last())]
        } else {
            published(self.action_tx, BroadcastMsgView::FinishLabeling)
        }
    }

    /// The sweep with exactly the unlabeled files of `state` waiting.
    pub open spec fn loaded(self, state: AppStateView) -> LabelerView {
        LabelerView { files_to_label: unlabeled_files(self.visible(state)), ..self }
    }

    /// The sweep after the file `file` was read with the outcome `bytes`: a
    /// file that cannot be encoded is skipped and the next step follows.
    pub open spec fn read(self, file: Seq<char>, bytes: Option<Seq<u8>>) -> LabelerView {
        match encoded(file, bytes) {
            Some(_) => self,
            None => self.stepped(),
        }
    }

    /// What the read file asks of the host: one vision request if there is a
    /// vision model and the sweep is connected to the bus; the next step for
    /// a file that cannot be encoded.
    pub open spec fn read_effects(
        self,
        file: Seq<char>,
        bytes: Option<Seq<u8>>,
        state: AppStateView,
    ) -> Seq<EffectView> {
        match encoded(file, bytes) {
            Some(image) => match self.vision_model(state) {
                Some(model) if self.action_tx => seq![
                    EffectView::Generate(
                        label_request(ollama_endpoint(self.shared(state)), model, file, image),
                    ),
                ],
                _ => Seq::empty(),
            },
            None => self.step_effects(),
        }
    }
}

/// The files that a sweep reads from `view` on, one per step, until none waits.
pub open spec fn sweep_reads(view: LabelerView) -> Seq<Seq<char>>
    decreases view.files_to_label.len(),
{
    if view.files_to_label.len() == 0 {
        Seq::empty()
    } else {
        seq![view.files_to_label.last()] + sweep_reads(view.stepped())
    }
}

/// A sweep reads each waiting file once, the last one first.
pub proof fn lemma_sweep_reads_waiting_files(view: LabelerView)
    ensures
        sweep_reads(view) == view.files_to_label.reverse(),
    decreases view.files_to_label.len(),
{
    if view.files_to_label.len() > 0 {
        lemma_sweep_reads_waiting_files(view.stepped());
        assert(view.files_to_label.reverse() == seq![view.files_to_label.last()]
            + view.files_to_label.drop_last().reverse());
    }
}

/// Every path among the unlabeled files of `records` belongs to an entry
/// whose label set is empty.
pub proof fn lemma_unlabeled_files_have_no_labels(records: Seq<DirectoryFilesView>, k: int)
    requires
        0 <= k < unlabeled_files(records).len(),
    ensures
        exists|i: int, j: int|
            0 <= i < records.len() && 0 <= j < records[i].files_with_labels.len()
                && #[trigger] records[i].files_with_labels[j].file == unlabeled_files(records)[k]
                && records[i].files_with_labels[j].labels.len() == 0,
    decreases records.len(),
{
    let head = unlabeled_files(records.drop_last());
    let last = records.len() - 1;
    if k < head.len() {
        lemma_unlabeled_files_have_no_labels(records.drop_last(), k);
        let (i, j) = choose|i: int, j: int|
            0 <= i < records.drop_last().len() && 0 <= j
                < records.drop_last()[i].files_with_labels.len()
                && #[trigger] records.drop_last()[i].files_with_labels[j].file == head[k]
                && records.drop_last()[i].files_with_labels[j].labels.len() == 0;
        assert(records[i].files_with_labels[j].file == unlabeled_files(records)[k]);
    } else {
        let entries = records[last].files_with_labels;
        let kept = unlabeled(entries);
        let entry = kept[k - head.len()];
        entries.lemma_filter_contains_rev(|e: FileWithLabelView| e.labels.len() == 0, entry);
        entries.lemma_filter_pred(|e: FileWithLabelView| e.labels.len() == 0, k - head.len());
        let j = choose|j: int| 0 <= j < entries.len() && entries[j] == entry;
        assert(records[last].files_with_labels[j].file == unlabeled_files(records)[k]);
    }
}

/// A sweep that starts on `state` reads exactly the files that have no
/// label at that moment, each once: as many as the state counts as unlabeled.
pub proof fn lemma_sweep_reads_unlabeled_files_only(view: LabelerView, state: AppStateView)
    ensures
        sweep_reads(view.loaded(state)) == unlabeled_files(view.visible(state)).reverse(),
        sweep_reads(view.loaded(state)).len() == total_unlabeled(view.visible(state)),
{
    lemma_sweep_reads_waiting_files(view.loaded(state));
    lemma_unlabeled_at_most_total(view.visible(state));
}

impl Labeler {
    /// The view of a fresh value: not connected, with nothing cached.
    pub open spec fn new_view() -> LabelerView {
        LabelerView {
            action_tx: false,
            app_state: false,
            files_to_label: Seq::empty(),
        }
    }

    pub fn new() -> (labeler: Self)
        ensures
            labeler@ == Self::new_view(),
    {
        let files_to_label: Vec<String> = Vec::new();
        assert(files_to_label.deep_view() == Seq::<Seq<char>>::empty());
        Labeler { action_tx: false, app_state: false, files_to_label }
    }

    /// The files that still wait, the next one last.
    pub fn files_to_label(&self) -> (files: &Vec<String>)
        ensures
            files.deep_view() == self@.files_to_label,
    {
        &self.files_to_label
    }

    /// Starts a sweep over every file that has no label at this moment. A
    /// file that has labels is never part of the sweep. A sweep that was
    /// under way is replaced.
    fn start_labeling(&mut self, app_state: &AppState) -> (effects: Vec<Effect>)
        ensures
            final(self)@ == old(self)@.loaded(app_state@).stepped(),
            effects.deep_view() == old(self)@.loaded(app_state@).step_effects(),
    {
        let mut all_files: Vec<String> = Vec::new();
        assert(all_files.deep_view() == Seq::<Seq<char>>::empty());
        if self.app_state {
            let records = &app_state.dir_files;
            let mut i: usize = 0;
            assert(records.deep_view().take(0) == Seq::<DirectoryFilesView>::empty());
            while i < records.len()
                invariant
                    i <= records.len(),
                    all_files.deep_view() == unlabeled_files(records.deep_view().take(i as int)),
                decreases records.len() - i,
            {
                let entries = &records[i].files_with_labels;
                let ghost seen = records.deep_view().take(i as int);
                let ghost next = records.deep_view().take(i + 1);
                let ghost base = all_files.deep_view();
                assert(next.drop_last() == seen);
                assert(next.last().files_with_labels == entries.deep_view());
                let ghost empty = |e: FileWithLabelView| e.labels.len() == 0;
                let mut j: usize = 0;
                proof {
                    reveal(Seq::filter);
                }
                assert(entries.deep_view().take(0) == Seq::<FileWithLabelView>::empty());
                assert(all_files.deep_view() == base + Seq::new(
                    unlabeled(entries.deep_view().take(0)).len(),
                    |k: int| unlabeled(entries.deep_view().take(0))[k].file,
                ));
                while j < entries.len()
                    invariant
                        j <= entries.len(),
                        empty == |e: FileWithLabelView| e.labels.len() == 0,
                        all_files.deep_view() == base + Seq::new(
                            unlabeled(entries.deep_view().take(j as int)).len(),
                            |k: int| unlabeled(entries.deep_view().take(j as int))[k].file,
                        ),
                    decreases entries.len() - j,
                {
                    let ghost before = all_files.deep_view();
                    proof {
                        entries.deep_view().take(j as int).lemma_filter_push(entries[j as int]@, empty);
                        assert(entries.deep_view().take(j + 1) == entries.deep_view().take(
                            j as int,
                        ).push(entries[j as int]@));
                    }
                    if entries[j].labels.len() == 0 {
                        all_files.push(entries[j].file.clone());
                        assert(all_files.deep_view() == before.push(entries[j as int]@.file));
                    }
                    j += 1;
                    assert(all_files.deep_view() == base + Seq::new(
                        unlabeled(entries.deep_view().take(j as int)).len(),
                        |k: int| unlabeled(entries.deep_view().take(j as int))[k].file,
                    ));
                }
                assert(entries.deep_view().take(j as int) == entries.deep_view());
                i += 1;
            }
            assert(records.deep_view().take(i as int) == records.deep_view());
        }
        self.files_to_label = all_files;
        self.next_vision_search()
    }

    /// Takes the next waiting file, or ends the sweep if none waits.
    fn next_vision_search(&mut self) -> (effects: Vec<Effect>)
        ensures
            final(self)@ == old(self)@.stepped(),
            effects.deep_view() == old(self)@.step_effects(),
    {
        let ghost before = self.files_to_label.deep_view();
        if let Some(img) = self.files_to_label.pop() {
            assert(self.files_to_label.deep_view() == before.drop_last());
            assert(img@ == before.last());
            only(Effect::ReadLabelImage(img))
        } else {
            self.finished_image_search()
        }
    }

    fn finished_image_search(&self) -> (effects: Vec<Effect>)
        ensures
            effects.deep_view() == published(self@.action_tx, BroadcastMsgView::FinishLabeling),
    {
        publish(self.action_tx, BroadcastMsg::FinishLabeling)
    }

    fn get_vision_model(&self, app_state: &AppState) -> (name: Option<String>)
        ensures
            name.deep_view() == self@.vision_model(app_state@),
    {
        if self.app_state {
            app_state.ollama_state.first_vision_model()
        } else {
            None
        }
    }

    /// Continues the sweep with what a read of `file` gave: `bytes` is the
    /// file's content, or none if it could not be read.
    ///
    /// A readable file goes to the first vision model, with the request to
    /// list what it shows. A file that cannot be read or encoded is skipped,
    /// and the sweep goes on with the next file.
    pub fn label_image(&mut self, file: String, bytes: Option<Vec<u8>>, app_state: &AppState) -> (effects:
        Vec<Effect>)
        ensures
            final(self)@ == old(self)@.read(
                file@,
                match bytes {
                    Some(content) => Some(content@),
                    None => None,
                },
            ),
            effects.deep_view() == old(self)@.read_effects(
                file@,
                match bytes {
                    Some(content) => Some(content@),
                    None => None,
                },
                app_state@,
            ),
    {
        match img_path_to_base64(file.clone(), bytes.as_ref()) {
            Some(img) => {
                match self.get_vision_model(app_state) {
                    Some(vision_model) => self.msg_to_vision(file, vision_model, img, app_state),
                    None => nothing(),
                }
            },
            None => self.next_vision_search(),
        }
    }

    fn msg_to_vision(
        &self,
        file: String,
        model_name: String,
        img: ImageBase64Search,
        app_state: &AppState,
    ) -> (effects: Vec<Effect>)
        ensures
            effects.deep_view() == if self@.action_tx {
                seq![
                    EffectView::Generate(
                        label_request(
                            ollama_endpoint(self@.shared(app_state@)),
                            model_name@,
                            file@,
                            img@,
                        ),
                    ),
                ]
            } else {
                Seq::empty()
            },
    {
        let (url, port) = get_ollama_url(
            if self.app_state {
                Some(app_state)
            } else {
                None
            },
        );
        if self.action_tx {
            only(
                Effect::Generate(
                    GenerationRequest {
                        url,
                        port,
                        model: model_name,
                        prompt: LABEL_PROMPT.to_owned(),
                        system: None,
                        image: Some(img),
                        deterministic: true,
                        structured: false,
                        reply: Reply::Labels(file),
                    },
                ),
            )
        } else {
            nothing()
        }
    }
}

impl Component for Labeler {
    open spec fn after(view: LabelerView, msg: BroadcastMsgView, state: AppStateView) -> LabelerView {
        match msg {
            BroadcastMsgView::StartLabeling => view.loaded(state).stepped(),
            BroadcastMsgView::GetLabelsForImage(_, _) => view.stepped(),
            _ => view,
        }
    }

    open spec fn effects(view: LabelerView, msg: BroadcastMsgView, state: AppStateView) -> Seq<
        EffectView,
    > {
        match msg {
            BroadcastMsgView::StartLabeling => view.loaded(state).step_effects(),
            BroadcastMsgView::GetLabelsForImage(_, _) => view.step_effects(),
            _ => Seq::empty(),
        }
    }

    fn register_tx(&mut self)
        ensures
            final(self)@ == (LabelerView { action_tx: true, ..old(self)@ }),
    {
        self.action_tx = true;
    }

    fn register_app_state(&mut self, app_state: &AppState)
        ensures
            final(self)@ == (LabelerView { app_state: true, ..old(self)@ }),
    {
        self.app_state = true;
    }

    fn init(&mut self, app_state: &AppState) -> (effects: Vec<Effect>)
        ensures
            final(self)@ == old(self)@,
            effects.deep_view() == Seq::<EffectView>::empty(),
    {
        nothing()
    }

    fn update(&mut self, msg: BroadcastMsg, app_state: &AppState) -> (effects: Vec<Effect>) {
        match msg {
            BroadcastMsg::StartLabeling => self.start_labeling(app_state),
            BroadcastMsg::GetLabelsForImage(_file, _labels) => self.next_vision_search(),
            _ => nothing(),
        }
    }
}

} // verus!
