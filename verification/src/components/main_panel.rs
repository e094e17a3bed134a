//! The image browser: the thumbnails of every tracked directory and the
//! result of the last label search.

use vstd::prelude::*;
use crate::app_state::{AppState, AppStateView};
use crate::components::Component;
use crate::effects::{nothing, Effect, EffectView};
use crate::enums::{
    BroadcastMsg, BroadcastMsgView, DirectoryImage, DirectoryImageView, DirectoryImages,
    DirectoryImagesView,
};
use crate::text::{
    contains, find_in, label_list, lowercase, parse_labels, parse_search_terms, search_terms,
    str_eq, to_chars,
};

verus! {

/// The text of the search field that belongs to one directory.
#[derive(Debug, PartialEq, Eq)]
pub struct SearchInput {
    pub dir: String,
    pub text: String,
}

pub struct SearchInputView {
    pub dir: Seq<char>,
    pub text: Seq<char>,
}

impl View for SearchInput {
    type V = SearchInputView;

    open spec fn view(&self) -> SearchInputView {
        SearchInputView { dir: self.dir@, text: self.text@ }
    }
}

impl DeepView for SearchInput {
    type V = SearchInputView;

    open spec fn deep_view(&self) -> SearchInputView {
        self@
    }
}

/// The browser's cache.
#[derive(Debug, PartialEq, Eq)]
pub struct MainPanel {
    action_tx: bool,
    app_state: bool,
    dir_images: Vec<DirectoryImages>,
    found_images: Vec<DirectoryImage>,
    search_inputs: Vec<SearchInput>,
}

pub struct MainPanelView {
    pub action_tx: bool,
    pub app_state: bool,
    pub dir_images: Seq<DirectoryImagesView>,
    pub found_images: Seq<DirectoryImageView>,
    pub search_inputs: Seq<SearchInputView>,
}

impl View for MainPanel {
    type V = MainPanelView;

    closed spec fn view(&self) -> MainPanelView {
        MainPanelView {
            action_tx: self.action_tx,
            app_state: self.app_state,
            dir_images: self.dir_images.deep_view(),
            found_images: self.found_images.deep_view(),
            search_inputs: self.search_inputs.deep_view(),
        }
    }
}

/// Whether the directory `dir` is among `shown`.
pub open spec fn shows(shown: Seq<DirectoryImagesView>, dir: Seq<char>) -> bool {
    exists|i: int| 0 <= i < shown.len() && #[trigger] shown[i].dir == dir
}

/// Index of the first search field for `dir`, or the length when there is none.
pub open spec fn first_input(inputs: Seq<SearchInputView>, dir: Seq<char>) -> int
    decreases inputs.len(),
{
    if inputs.len() == 0 {
        0
    } else if inputs[0].dir == dir {
        0
    } else {
        1 + first_input(inputs.drop_first(), dir)
    }
}

/// `inputs` with the search field of `dir` set to `text`: the first field
/// for `dir` is overwritten, or a new one is added at the end.
pub open spec fn put_input(inputs: Seq<SearchInputView>, dir: Seq<char>, text: Seq<char>) -> Seq<
    SearchInputView,
> {
    let i = first_input(inputs, dir);
    if 0 <= i < inputs.len() {
        inputs.update(i, SearchInputView { dir, text })
    } else {
        inputs.push(SearchInputView { dir, text })
    }
}

/// The text of the search field of `dir`, if it has one.
pub open spec fn get_input(inputs: Seq<SearchInputView>, dir: Seq<char>) -> Option<Seq<char>> {
    let i = first_input(inputs, dir);
    if 0 <= i < inputs.len() {
        Some(inputs[i].text)
    } else {
        None
    }
}

/// Index of the first image of `file`, or the length when there is none.
pub open spec fn first_image(images: Seq<DirectoryImageView>, file: Seq<char>) -> int
    decreases images.len(),
{
    if images.len() == 0 {
        0
    } else if images[0].file == file {
        0
    } else {
        1 + first_image(images.drop_first(), file)
    }
}

/// `shown` with `labels` stored on its first image of `file`, if it has one.
pub open spec fn label_image(shown: DirectoryImagesView, file: Seq<char>, labels: Seq<Seq<char>>) -> DirectoryImagesView {
    let i = first_image(shown.images, file);
    if 0 <= i < shown.images.len() {
        DirectoryImagesView {
            images: shown.images.update(i, DirectoryImageView { file: shown.images[i].file, labels }),
            ..shown
        }
    } else {
        shown
    }
}

/// Whether `text` holds one of `terms` as a part.
pub open spec fn holds_term(text: Seq<char>, terms: Seq<Seq<char>>) -> bool {
    exists|i: int| 0 <= i < terms.len() && contains(text, #[trigger] terms[i])
}

/// Whether one of the labels of `image`, in lowercase, holds one of `terms`.
pub open spec fn image_matches(image: DirectoryImageView, terms: Seq<Seq<char>>) -> bool {
    exists|j: int|
        0 <= j < image.labels.len() && holds_term(lowercase(#[trigger] image.labels[j]), terms)
}

/// The images of `images` that match `terms`, in their order.
pub open spec fn matching(images: Seq<DirectoryImageView>, terms: Seq<Seq<char>>) -> Seq<
    DirectoryImageView,
> {
    images.filter(|image: DirectoryImageView| image_matches(image, terms))
}

/// The images of all of `shown` that match `terms`: directory by directory, each in its order.
pub open spec fn found(shown: Seq<DirectoryImagesView>, terms: Seq<Seq<char>>) -> Seq<
    DirectoryImageView,
>
    decreases shown.len(),
{
    if shown.len() == 0 {
        Seq::empty()
    } else {
        found(shown.drop_last(), terms) + matching(shown.last().images, terms)
    }
}

impl MainPanelView {
    /// The browser after the thumbnails `images` arrived: a directory that is
    /// shown already is left alone; a new one is added with an empty search field.
    pub open spec fn with_thumbnails(self, images: DirectoryImagesView) -> MainPanelView {
        if shows(self.dir_images, images.dir) {
            self
        } else {
            MainPanelView {
                dir_images: self.dir_images.push(images),
                search_inputs: put_input(self.search_inputs, images.dir, Seq::empty()),
                ..self
            }
        }
    }

    /// The browser without the directory `path`.
    pub open spec fn without_thumbnails(self, path: Seq<char>) -> MainPanelView {
        MainPanelView {
            dir_images: self.dir_images.filter(|d: DirectoryImagesView| d.dir != path),
            ..self
        }
    }

    /// The browser with `labels` stored for `file` in every directory that shows it.
    pub open spec fn with_labels(self, file: Seq<char>, labels: Seq<Seq<char>>) -> MainPanelView {
        MainPanelView {
            dir_images: Seq::new(
                self.dir_images.len(),
                |i: int| label_image(self.dir_images[i], file, labels),
            ),
            ..self
        }
    }

    /// The browser after a search for `terms`.
    pub open spec fn searched(self, terms: Seq<Seq<char>>) -> MainPanelView {
        MainPanelView { found_images: found(self.dir_images, terms), ..self }
    }
}

/// The first match is at `j` if there is a match there and none before.
proof fn lemma_first_input(inputs: Seq<SearchInputView>, dir: Seq<char>, j: int)
    requires
        0 <= j <= inputs.len(),
        forall|k: int| 0 <= k < j ==> inputs[k].dir != dir,
        j < inputs.len() ==> inputs[j].dir == dir,
    ensures
        first_input(inputs, dir) == j,
    decreases inputs.len(),
{
    if inputs.len() > 0 && j > 0 {
        lemma_first_input(inputs.drop_first(), dir, j - 1);
    }
}

/// The first match is at `j` if there is a match there and none before.
proof fn lemma_first_image(images: Seq<DirectoryImageView>, file: Seq<char>, j: int)
    requires
        0 <= j <= images.len(),
        forall|k: int| 0 <= k < j ==> images[k].file != file,
        j < images.len() ==> images[j].file == file,
    ensures
        first_image(images, file) == j,
    decreases images.len(),
{
    if images.len() > 0 && j > 0 {
        lemma_first_image(images.drop_first(), file, j - 1);
    }
}

/// Whether `text` holds one of `terms` as a part.
pub fn text_holds_term(text: &str, terms: &Vec<String>) -> (held: bool)
    ensures
        held == holds_term(text@, terms.deep_view()),
{
    let hay = to_chars(text);
    let mut i: usize = 0;
    while i < terms.len()
        invariant
            i <= terms.len(),
            hay@ == text@,
            forall|k: int| 0 <= k < i ==> !contains(text@, terms.deep_view()[k]),
        decreases terms.len() - i,
    {
        let needle = to_chars(terms[i].as_str());
        if find_in(&hay, &needle, false) {
            assert(contains(text@, terms.deep_view()[i as int]));
            return true;
        }
        i += 1;
    }
    false
}

/// Whether one of `labels`, put in lowercase, holds one of `terms`.
fn labels_match(image: &DirectoryImage, terms: &Vec<String>) -> (matched: bool)
    ensures
        matched == image_matches(image@, terms.deep_view()),
{
    let mut j: usize = 0;
    while j < image.labels.len()
        invariant
            j <= image.labels.len(),
            forall|k: int|
                0 <= k < j ==> !holds_term(lowercase(image@.labels[k]), terms.deep_view()),
        decreases image.labels.len() - j,
    {
        let lower = image.labels[j].as_str().to_lowercase();
        if text_holds_term(lower.as_str(), terms) {
            assert(holds_term(lowercase(image@.labels[j as int]), terms.deep_view()));
            return true;
        }
        j += 1;
    }
    false
}

impl MainPanel {
    /// The view of a fresh value: not connected, with nothing cached.
    pub open spec fn new_view() -> MainPanelView {
        MainPanelView {
            action_tx: false,
            app_state: false,
            dir_images: Seq::empty(),
            found_images: Seq::empty(),
            search_inputs: Seq::empty(),
        }
    }

    pub fn new() -> (panel: Self)
        ensures
            panel@ == Self::new_view(),
    {
        let panel = MainPanel {
            action_tx: false,
            app_state: false,
            dir_images: Vec::new(),
            found_images: Vec::new(),
            search_inputs: Vec::new(),
        };
        assert(panel.dir_images.deep_view() == Seq::<DirectoryImagesView>::empty());
        assert(panel.found_images.deep_view() == Seq::<DirectoryImageView>::empty());
        assert(panel.search_inputs.deep_view() == Seq::<SearchInputView>::empty());
        panel
    }

    /// The directories that the browser shows.
    pub fn dir_images(&self) -> (shown: &Vec<DirectoryImages>)
        ensures
            shown.deep_view() == self@.dir_images,
    {
        &self.dir_images
    }

    /// The result of the last search.
    pub fn found_images(&self) -> (images: &Vec<DirectoryImage>)
        ensures
            images.deep_view() == self@.found_images,
    {
        &self.found_images
    }

    /// The position of the first search field for `dir`.
    fn input_index(&self, dir: &str) -> (i: usize)
        ensures
            i == first_input(self@.search_inputs, dir@),
            i <= self.search_inputs.len(),
    {
        let mut i: usize = 0;
        while i < self.search_inputs.len() && !str_eq(self.search_inputs[i].dir.as_str(), dir)
            invariant
                i <= self.search_inputs.len(),
                forall|k: int| 0 <= k < i ==> self@.search_inputs[k].dir != dir@,
            decreases self.search_inputs.len() - i,
        {
            i += 1;
        }
        proof {
            lemma_first_input(self@.search_inputs, dir@, i as int);
        }
        i
    }

    /// The text of the search field of the directory `dir`, if it has one.
    pub fn search_input(&self, dir: &str) -> (text: Option<&String>)
        ensures
            text.deep_view() == get_input(self@.search_inputs, dir@),
    {
        let i = self.input_index(dir);
        if i < self.search_inputs.len() {
            Some(&self.search_inputs[i].text)
        } else {
            None
        }
    }

    /// The user edited the search field of the directory `dir`.
    pub fn set_search_input(&mut self, dir: String, text: String)
        ensures
            final(self)@ == (MainPanelView {
                search_inputs: put_input(old(self)@.search_inputs, dir@, text@),
                ..old(self)@
            }),
    {
        let i = self.input_index(dir.as_str());
        let ghost before = self.search_inputs.deep_view();
        let input = SearchInput { dir, text };
        if i < self.search_inputs.len() {
            self.search_inputs.set(i, input);
            assert(self.search_inputs.deep_view() == before.update(i as int, input@));
        } else {
            self.search_inputs.push(input);
            assert(self.search_inputs.deep_view() == before.push(input@));
        }
    }

    fn is_shown(&self, dir: &str) -> (found: bool)
        ensures
            found == shows(self@.dir_images, dir@),
    {
        let mut i: usize = 0;
        while i < self.dir_images.len()
            invariant
                i <= self.dir_images.len(),
                forall|k: int| 0 <= k < i ==> self@.dir_images[k].dir != dir@,
            decreases self.dir_images.len() - i,
        {
            if str_eq(self.dir_images[i].dir.as_str(), dir) {
                assert(self@.dir_images[i as int].dir == dir@);
                return true;
            }
            i += 1;
        }
        false
    }

    fn save_thumbnails(&mut self, dir_images: DirectoryImages)
        ensures
            final(self)@ == old(self)@.with_thumbnails(dir_images@),
    {
        if !self.is_shown(dir_images.dir.as_str()) {
            let dir = dir_images.dir.clone();
            let ghost before = self.dir_images.deep_view();
            self.dir_images.push(dir_images);
            assert(self.dir_images.deep_view() == before.push(dir_images@));
            self.set_search_input(dir, String::new());
        }
    }

    fn remove_thumbnails(&mut self, path: String)
        ensures
            final(self)@ == old(self)@.without_thumbnails(path@),
    {
        let mut kept: Vec<DirectoryImages> = Vec::new();
        let mut i: usize = 0;
        let ghost keep = |d: DirectoryImagesView| d.dir != path@;
        assert(self.dir_images.deep_view().take(0) == Seq::<DirectoryImagesView>::empty());
        assert(kept.deep_view() == Seq::<DirectoryImagesView>::empty());
        proof {
            reveal(Seq::filter);
        }
        while i < self.dir_images.len()
            invariant
                i <= self.dir_images.len(),
                keep == |d: DirectoryImagesView| d.dir != path@,
                kept.deep_view() == self.dir_images.deep_view().take(i as int).filter(keep),
            decreases self.dir_images.len() - i,
        {
            let ghost seen = self.dir_images.deep_view().take(i as int);
            let ghost before = kept.deep_view();
            let shown = &self.dir_images[i];
            proof {
                seen.lemma_filter_push(shown@, keep);
                assert(self.dir_images.deep_view().take(i + 1) == seen.push(shown@));
            }
            if !str_eq(shown.dir.as_str(), path.as_str()) {
                kept.push(shown.clone());
                assert(kept.deep_view() == before.push(shown@));
            }
            i += 1;
        }
        assert(self.dir_images.deep_view().take(i as int) == self.dir_images.deep_view());
        self.dir_images = kept;
    }

    fn add_labels_to_file(&mut self, file: String, labels: String)
        ensures
            final(self)@ == old(self)@.with_labels(file@, label_list(labels@)),
    {
        let parsed = parse_labels(labels.as_str());
        let mut i: usize = 0;
        while i < self.dir_images.len()
            invariant
                i <= self.dir_images.len(),
                self.dir_images.len() == old(self).dir_images.len(),
                parsed.deep_view() == label_list(labels@),
                self.action_tx == old(self).action_tx,
                self.app_state == old(self).app_state,
                self.found_images == old(self).found_images,
                self.search_inputs == old(self).search_inputs,
                forall|k: int|
                    0 <= k < i ==> self.dir_images.deep_view()[k] == label_image(
                        old(self).dir_images.deep_view()[k],
                        file@,
                        parsed.deep_view(),
                    ),
                forall|k: int|
                    i <= k < self.dir_images.len() ==> self.dir_images.deep_view()[k] == old(
                        self,
                    ).dir_images.deep_view()[k],
            decreases self.dir_images.len() - i,
        {
            let ghost shown = self.dir_images.deep_view()[i as int];
            let mut j: usize = 0;
            let n = self.dir_images[i].images.len();
            while j < n && !str_eq(self.dir_images[i].images[j].file.as_str(), file.as_str())
                invariant
                    i < self.dir_images.len(),
                    j <= n,
                    n == self.dir_images[i as int].images.len(),
                    shown == self.dir_images.deep_view()[i as int],
                    forall|k: int| 0 <= k < j ==> shown.images[k].file != file@,
                decreases n - j,
            {
                j += 1;
            }
            proof {
                lemma_first_image(shown.images, file@, j as int);
            }
            if j < n {
                let ghost before = self.dir_images.deep_view();
                self.dir_images[i].images[j].labels = parsed.clone();
                proof {
                    let stored = self.dir_images[i as int]@;
                    assert(stored.images == shown.images.update(
                        j as int,
                        DirectoryImageView {
                            file: shown.images[j as int].file,
                            labels: parsed.deep_view(),
                        },
                    ));
                    assert(stored == label_image(shown, file@, parsed.deep_view()));
                    assert(self.dir_images.deep_view() == before.update(i as int, stored));
                }
            }
            i += 1;
        }
        assert(self.dir_images.deep_view() == old(self)@.with_labels(
            file@,
            label_list(labels@),
        ).dir_images);
    }

    /// Collects the images that match the given lowercase terms.
    pub fn search_by_terms(&mut self, terms: &Vec<String>)
        ensures
            final(self)@ == old(self)@.searched(terms.deep_view()),
    {
        let mut imgs: Vec<DirectoryImage> = Vec::new();
        let mut i: usize = 0;
        let ghost wanted = |image: DirectoryImageView| image_matches(image, terms.deep_view());
        assert(self.dir_images.deep_view().take(0) == Seq::<DirectoryImagesView>::empty());
        assert(imgs.deep_view() == Seq::<DirectoryImageView>::empty());
        while i < self.dir_images.len()
            invariant
                i <= self.dir_images.len(),
                wanted == |image: DirectoryImageView| image_matches(image, terms.deep_view()),
                imgs.deep_view() == found(self.dir_images.deep_view().take(i as int), terms.deep_view()),
            decreases self.dir_images.len() - i,
        {
            let images = &self.dir_images[i].images;
            let ghost seen = self.dir_images.deep_view().take(i as int);
            let ghost next = self.dir_images.deep_view().take(i + 1);
            let ghost base = imgs.deep_view();
            assert(next.drop_last() == seen);
            assert(next.last().images == images.deep_view());
            let mut j: usize = 0;
            proof {
                reveal(Seq::filter);
            }
            assert(images.deep_view().take(0) == Seq::<DirectoryImageView>::empty());
            assert(base + Seq::<DirectoryImageView>::empty() == base);
            while j < images.len()
                invariant
                    j <= images.len(),
                    wanted == |image: DirectoryImageView| image_matches(image, terms.deep_view()),
                    imgs.deep_view() == base + images.deep_view().take(j as int).filter(wanted),
                decreases images.len() - j,
            {
                let ghost before = imgs.deep_view();
                let ghost kept = images.deep_view().take(j as int).filter(wanted);
                proof {
                    images.deep_view().take(j as int).lemma_filter_push(images[j as int]@, wanted);
                    assert(images.deep_view().take(j + 1) == images.deep_view().take(
                        j as int,
                    ).push(images[j as int]@));
                }
                if labels_match(&images[j], terms) {
                    imgs.push(images[j].clone());
                    assert(imgs.deep_view() == before.push(images[j as int]@));
                    assert(base + kept.push(images[j as int]@) == (base + kept).push(
                        images[j as int]@,
                    ));
                }
                j += 1;
            }
            assert(images.deep_view().take(j as int) == images.deep_view());
            i += 1;
        }
        assert(self.dir_images.deep_view().take(i as int) == self.dir_images.deep_view());
        self.found_images = imgs;
    }

    fn search_by_labels(&mut self, labels: String)
        ensures
            final(self)@ == old(self)@.searched(search_terms(labels@)),
    {
        let terms = parse_search_terms(labels.as_str());
        self.search_by_terms(&terms);
    }
}

impl Component for MainPanel {
    open spec fn after(view: MainPanelView, msg: BroadcastMsgView, state: AppStateView) -> MainPanelView {
        match msg {
            BroadcastMsgView::RemovedDirectory(path) => view.without_thumbnails(path),
            BroadcastMsgView::DirectoryImages(images) => view.with_thumbnails(images),
            BroadcastMsgView::SearchByLabels(labels) => view.searched(search_terms(labels)),
            BroadcastMsgView::GetLabelsForImage(file, labels) => view.with_labels(
                file,
                label_list(labels),
            ),
            _ => view,
        }
    }

    open spec fn effects(view: MainPanelView, msg: BroadcastMsgView, state: AppStateView) -> Seq<
        EffectView,
    > {
        Seq::empty()
    }

    fn register_tx(&mut self)
        ensures
            final(self)@ == (MainPanelView { action_tx: true, ..old(self)@ }),
    {
        self.action_tx = true;
    }

    fn register_app_state(&mut self, app_state: &AppState)
        ensures
            final(self)@ == (MainPanelView { app_state: true, ..old(self)@ }),
    {
        self.app_state = true;
    }

    fn init(&mut self, app_state: &AppState) -> (effects: Vec<Effect>)
        ensures
            final(self)@ == old(self)@,
            effects.deep_view() == Seq::<EffectView>::empty(),
    {
        nothing()
    }

    fn update(&mut self, msg: BroadcastMsg, app_state: &AppState) -> (effects: Vec<Effect>) {
        match msg {
            BroadcastMsg::RemovedDirectory(path) => {
                self.remove_thumbnails(path);
            },
            BroadcastMsg::DirectoryImages(dir_file) => {
                self.save_thumbnails(dir_file);
            },
            BroadcastMsg::SearchByLabels(labels) => {
                self.search_by_labels(labels);
            },
            BroadcastMsg::GetLabelsForImage(file, labels) => {
                self.add_labels_to_file(file, labels);
            },
            _ => {},
        }
        nothing()
    }
}

} // verus!
