//! Discovery of image files and preparation of their thumbnails.
//!
//! Walking the disk and decoding images is the host's work. What is searched,
//! which file a thumbnail is read from, and what is announced is decided here.

use vstd::prelude::*;
use crate::app_state::{unlabeled_entries, AppState, AppStateView};
use crate::components::Component;
use crate::effects::{nothing, only, publish, published, Effect, EffectView};
use crate::enums::{
    BroadcastMsg, BroadcastMsgView, DirectoryFiles, DirectoryFilesView, DirectoryImage,
    DirectoryImageView, DirectoryImages, DirectoryImagesView, FileWithLabel, FileWithLabelView,
};
use crate::text::str_eq;

verus! {

/// The name of the thumbnail cache below the user's home directory.
pub const THUMBNAILS_DIR_NAME: &'static str = "deskvision";

/// The file name used for a thumbnail whose source has none.
pub const UNKNOWN_FILE_NAME: &'static str = "unknown";

/// The loader keeps no cache of its own.
#[derive(Debug, PartialEq, Eq)]
pub struct FileLoader {
    action_tx: bool,
    app_state: bool,
}

pub struct FileLoaderView {
    pub action_tx: bool,
    pub app_state: bool,
}

impl View for FileLoader {
    type V = FileLoaderView;

    closed spec fn view(&self) -> FileLoaderView {
        FileLoaderView { action_tx: self.action_tx, app_state: self.app_state }
    }
}

/// The thumbnail cache directory of the user whose home directory is `home`.
pub open spec fn thumbnails_dir_of(home: Seq<char>) -> Seq<char> {
    home + "/"@ + THUMBNAILS_DIR_NAME@
}

/// The place in the cache `dir` of the thumbnail of a file named `file_name`.
pub open spec fn thumbnail_path_of(dir: Seq<char>, file_name: Option<Seq<char>>) -> Seq<char> {
    dir + "/"@ + match file_name {
        Some(name) => name,
        None => UNKNOWN_FILE_NAME@,
    }
}

/// The thumbnail cache directory of the user whose home directory is `home`.
pub fn thumbnails_dir(home: &str) -> (dir: String)
    ensures
        dir@ == thumbnails_dir_of(home@),
{
    home.to_owned().concat("/").concat(THUMBNAILS_DIR_NAME)
}

/// The place in the cache `dir` of the thumbnail of a file whose name is
/// `file_name`; a file without a name that is valid Unicode shares one place.
pub fn thumbnail_path(dir: &str, file_name: Option<&str>) -> (path: String)
    ensures
        path@ == thumbnail_path_of(dir@, file_name.deep_view()),
{
    let name = match file_name {
        Some(name) => name,
        None => UNKNOWN_FILE_NAME,
    };
    dir.to_owned().concat("/").concat(name)
}

/// The file from which the thumbnail of `file` is decoded: the cached
/// thumbnail if there is a cache and it holds one, else the file itself.
pub fn thumbnail_source(file: &str, thumb_path: &str, has_cache: bool, cached: bool) -> (source: String)
    ensures
        source@ == if has_cache && cached {
            thumb_path@
        } else {
            file@
        },
{
    if has_cache && cached {
        thumb_path.to_owned()
    } else {
        file.to_owned()
    }
}

/// Whether a freshly decoded thumbnail is written to the cache: there is a
/// cache, and the thumbnail was decoded from the file itself.
pub fn stores_thumbnail(has_cache: bool, file: &str, source: &str) -> (stored: bool)
    ensures
        stored == (has_cache && file@ == source@),
{
    has_cache && str_eq(file, source)
}

/// The images of `entries` whose thumbnail could be decoded, with their
/// labels, in their order. An entry without a flag counts as not decoded.
pub open spec fn decoded_images(entries: Seq<FileWithLabelView>, decoded: Seq<bool>) -> Seq<
    DirectoryImageView,
>
    decreases entries.len(),
{
    if entries.len() == 0 {
        Seq::empty()
    } else {
        let head = decoded_images(entries.drop_last(), decoded);
        let last = entries.len() - 1;
        if last < decoded.len() && decoded[last] {
            head.push(DirectoryImageView { file: entries[last].file, labels: entries[last].labels })
        } else {
            head
        }
    }
}

/// One request for thumbnails per record, in their order.
pub open spec fn thumbnail_requests(records: Seq<DirectoryFilesView>) -> Seq<EffectView> {
    Seq::new(records.len(), |i: int| EffectView::CreateThumbnails(records[i]))
}

impl FileLoaderView {
    /// The records that the loader can see.
    pub open spec fn visible(self, state: AppStateView) -> Seq<DirectoryFilesView> {
        if self.app_state {
            state.dir_files
        } else {
            Seq::empty()
        }
    }

    /// What the end of a search below `path` asks of the host: the found
    /// files are announced, and their thumbnails are requested.
    pub open spec fn searched(self, path: Seq<char>, files: Seq<Seq<char>>) -> Seq<EffectView> {
        published(self.action_tx, BroadcastMsgView::DirectoryFiles(path, files)).push(
            EffectView::CreateThumbnails(
                DirectoryFilesView { dir: path, files, files_with_labels: unlabeled_entries(files) },
            ),
        )
    }

    /// What the decoded thumbnails of `record` ask of the host: they are announced.
    pub open spec fn thumbnailed(self, record: DirectoryFilesView, decoded: Seq<bool>) -> Seq<
        EffectView,
    > {
        published(
            self.action_tx,
            BroadcastMsgView::DirectoryImages(
                DirectoryImagesView {
                    dir: record.dir,
                    images: decoded_images(record.files_with_labels, decoded),
                },
            ),
        )
    }
}

impl FileLoader {
    /// The view of a fresh value: not connected, with nothing cached.
    pub open spec fn new_view() -> FileLoaderView {
        FileLoaderView { action_tx: false, app_state: false }
    }

    pub fn new() -> (loader: Self)
        ensures
            loader@ == Self::new_view(),
    {
        FileLoader { action_tx: false, app_state: false }
    }

    /// Requests the thumbnails of every directory that the shared state tracks.
    fn init_thumbnails(&self, app_state: &AppState) -> (effects: Vec<Effect>)
        ensures
            effects.deep_view() == thumbnail_requests(self@.visible(app_state@)),
    {
        let mut effects: Vec<Effect> = Vec::new();
        if self.app_state {
            let mut i: usize = 0;
            while i < app_state.dir_files.len()
                invariant
                    i <= app_state.dir_files.len(),
                    effects.len() == i,
                    forall|k: int|
                        0 <= k < i ==> effects.deep_view()[k] == EffectView::CreateThumbnails(
                            app_state.dir_files.deep_view()[k],
                        ),
                decreases app_state.dir_files.len() - i,
            {
                let ghost before = effects.deep_view();
                let effect = Effect::CreateThumbnails(app_state.dir_files[i].clone());
                effects.push(effect);
                assert(effects.deep_view() == before.push(effect@));
                i += 1;
            }
        }
        assert(effects.deep_view() == thumbnail_requests(self@.visible(app_state@)));
        effects
    }

    /// Announces the thumbnails of `dir_files`: `decoded` tells, file by
    /// file, whether the host could decode one. Files without a thumbnail
    /// are not shown.
    pub fn create_thumbnails(&self, dir_files: &DirectoryFiles, decoded: &Vec<bool>) -> (effects: Vec<
        Effect,
    >)
        ensures
            effects.deep_view() == self@.thumbnailed(dir_files@, decoded@),
    {
        let files = &dir_files.files_with_labels;
        let mut dir_imgs: Vec<DirectoryImage> = Vec::new();
        let mut i: usize = 0;
        assert(files.deep_view().take(0) == Seq::<FileWithLabelView>::empty());
        assert(dir_imgs.deep_view() == Seq::<DirectoryImageView>::empty());
        while i < files.len()
            invariant
                i <= files.len(),
                dir_imgs.deep_view() == decoded_images(files.deep_view().take(i as int), decoded@),
            decreases files.len() - i,
        {
            let ghost before = dir_imgs.deep_view();
            let ghost next = files.deep_view().take(i + 1);
            assert(next.drop_last() == files.deep_view().take(i as int));
            assert(next[i as int] == files[i as int]@);
            if i < decoded.len() && decoded[i] {
                let image = DirectoryImage {
                    file: files[i].file.clone(),
                    labels: files[i].labels.clone(),
                };
                dir_imgs.push(image);
                assert(dir_imgs.deep_view() == before.push(image@));
            }
            i += 1;
        }
        assert(files.deep_view().take(i as int) == files.deep_view());
        let dir_obj = DirectoryImages { dir: dir_files.dir.clone(), images: dir_imgs };
        publish(self.action_tx, BroadcastMsg::DirectoryImages(dir_obj))
    }

    /// Continues with the image files `files` that a search below `path` found.
    pub fn search_images_on_path(&self, path: String, files: Vec<String>) -> (effects: Vec<Effect>)
        ensures
            effects.deep_view() == self@.searched(path@, files.deep_view()),
    {
        let mut effects = publish(
            self.action_tx,
            BroadcastMsg::DirectoryFiles(path.clone(), files.clone()),
        );
        let mut d_files: Vec<FileWithLabel> = Vec::new();
        let mut i: usize = 0;
        while i < files.len()
            invariant
                i <= files.len(),
                d_files.deep_view() == unlabeled_entries(files.deep_view().take(i as int)),
            decreases files.len() - i,
        {
            let ghost before = d_files.deep_view();
            let labels: Vec<String> = Vec::new();
            assert(labels.deep_view() == Seq::<Seq<char>>::empty());
            let entry = FileWithLabel { file: files[i].clone(), labels };
            d_files.push(entry);
            assert(d_files.deep_view() == before.push(entry@));
            i += 1;
            assert(d_files.deep_view() == unlabeled_entries(files.deep_view().take(i as int)));
        }
        assert(files.deep_view().take(i as int) == files.deep_view());
        let ghost announced = effects.deep_view();
        let request = Effect::CreateThumbnails(
            DirectoryFiles { dir: path, files, files_with_labels: d_files },
        );
        effects.push(request);
        assert(effects.deep_view() == announced.push(request@));
        effects
    }

    /// Starts a search below every directory that the user picks.
    fn update_ctx(&self, msg: BroadcastMsg) -> (effects: Vec<Effect>)
        ensures
            effects.deep_view() == match msg@ {
                BroadcastMsgView::PickedDirectory(path) => seq![EffectView::SearchDirectory(path)],
                _ => Seq::<EffectView>::empty(),
            },
    {
        if let BroadcastMsg::PickedDirectory(path) = msg {
            only(Effect::SearchDirectory(path))
        } else {
            nothing()
        }
    }
}

impl Component for FileLoader {
    open spec fn after(view: FileLoaderView, msg: BroadcastMsgView, state: AppStateView) -> FileLoaderView {
        view
    }

    open spec fn effects(view: FileLoaderView, msg: BroadcastMsgView, state: AppStateView) -> Seq<
        EffectView,
    > {
        match msg {
            BroadcastMsgView::PickedDirectory(path) => seq![EffectView::SearchDirectory(path)],
            _ => Seq::empty(),
        }
    }

    fn register_tx(&mut self)
        ensures
            final(self)@ == (FileLoaderView { action_tx: true, ..old(self)@ }),
    {
        self.action_tx = true;
    }

    fn register_app_state(&mut self, app_state: &AppState)
        ensures
            final(self)@ == (FileLoaderView { app_state: true, ..old(self)@ }),
    {
        self.app_state = true;
    }

    /// Requests the thumbnails of the directories that were tracked at the last shutdown.
    fn init(&mut self, app_state: &AppState) -> (effects: Vec<Effect>)
        ensures
            final(self)@ == old(self)@,
            effects.deep_view() == thumbnail_requests(old(self)@.visible(app_state@)),
    {
        self.init_thumbnails(app_state)
    }

    fn update(&mut self, msg: BroadcastMsg, app_state: &AppState) -> (effects: Vec<Effect>) {
        self.update_ctx(msg)
    }
}

} // verus!
