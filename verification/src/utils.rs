//! Helpers around files: which directory entries are images, and how an
//! image travels to a vision model.

use vstd::prelude::*;
use crate::config::{is_supported_image_format, supported_image_format};
use crate::enums::{ImageBase64Search, ImageBase64SearchView};

verus! {

/// One entry met while walking a directory, as far as the filters read it.
#[derive(Debug, PartialEq, Eq)]
pub struct PathEntry {
    /// The path as text.
    pub path: String,
    /// Whether the path is valid Unicode, so that the text is the path itself.
    pub unicode: bool,
    /// The extension of the file name, where it has one that is valid Unicode.
    pub extension: Option<String>,
    pub is_file: bool,
    pub is_dir: bool,
}

pub struct PathEntryView {
    pub path: Seq<char>,
    pub unicode: bool,
    pub extension: Option<Seq<char>>,
    pub is_file: bool,
    pub is_dir: bool,
}

impl View for PathEntry {
    type V = PathEntryView;

    open spec fn view(&self) -> PathEntryView {
        PathEntryView {
            path: self.path@,
            unicode: self.unicode,
            extension: self.extension.deep_view(),
            is_file: self.is_file,
            is_dir: self.is_dir,
        }
    }
}

impl DeepView for PathEntry {
    type V = PathEntryView;

    open spec fn deep_view(&self) -> PathEntryView {
        self@
    }
}

/// An image file as it was read: its path, and its bytes unless it could not be read.
#[derive(Debug, PartialEq, Eq)]
pub struct ImageFile {
    pub path: String,
    pub bytes: Option<Vec<u8>>,
}

pub struct ImageFileView {
    pub path: Seq<char>,
    pub bytes: Option<Seq<u8>>,
}

impl View for ImageFile {
    type V = ImageFileView;

    open spec fn view(&self) -> ImageFileView {
        ImageFileView {
            path: self.path@,
            bytes: match self.bytes {
                Some(bytes) => Some(bytes@),
                None => None,
            },
        }
    }
}

impl DeepView for ImageFile {
    type V = ImageFileView;

    open spec fn deep_view(&self) -> ImageFileView {
        self@
    }
}

impl PathEntryView {
    /// Whether the entry's extension is one of the supported image formats.
    pub open spec fn has_image_extension(self) -> bool {
        match self.extension {
            Some(extension) => supported_image_format(extension),
            None => false,
        }
    }

    /// Whether a search of the disk keeps the entry: a plain file with an image extension.
    pub open spec fn is_image_file(self) -> bool {
        self.is_file && !self.is_dir && self.has_image_extension()
    }
}

impl PathEntry {
    /// Whether the entry's extension is one of the supported image formats.
    pub fn has_image_extension(&self) -> (supported: bool)
        ensures
            supported == self@.has_image_extension(),
    {
        match &self.extension {
            Some(extension) => is_supported_image_format(extension.as_str()),
            None => false,
        }
    }

    /// Whether a search of the disk keeps the entry.
    pub fn is_image_file(&self) -> (kept: bool)
        ensures
            kept == self@.is_image_file(),
    {
        self.is_file && !self.is_dir && self.has_image_extension()
    }
}

/// The paths of the entries that a search of the disk keeps, in their order.
pub open spec fn image_paths(entries: Seq<PathEntryView>) -> Seq<Seq<char>> {
    let kept = entries.filter(|e: PathEntryView| e.is_image_file());
    Seq::new(kept.len(), |i: int| kept[i].path)
}

/// Picks the image files among the entries that a walk below a directory met.
pub fn search_images_at_path(entries: &Vec<PathEntry>) -> (found: Vec<String>)
    ensures
        found.deep_view() == image_paths(entries.deep_view()),
{
    let mut found: Vec<String> = Vec::new();
    let mut i: usize = 0;
    let ghost keep = |e: PathEntryView| e.is_image_file();
    assert(entries.deep_view().take(0) == Seq::<PathEntryView>::empty());
    proof {
        reveal(Seq::filter);
    }
    assert(found.deep_view() == image_paths(entries.deep_view().take(0)));
    while i < entries.len()
        invariant
            i <= entries.len(),
            keep == |e: PathEntryView| e.is_image_file(),
            found.deep_view() == image_paths(entries.deep_view().take(i as int)),
        decreases entries.len() - i,
    {
        let ghost seen = entries.deep_view().take(i as int);
        let ghost before = found.deep_view();
        proof {
            seen.lemma_filter_push(entries[i as int]@, keep);
            assert(entries.deep_view().take(i + 1) == seen.push(entries[i as int]@));
        }
        if entries[i].is_image_file() {
            found.push(entries[i].path.clone());
            assert(found.deep_view() == before.push(entries[i as int]@.path));
        }
        i += 1;
        assert(found.deep_view() == image_paths(entries.deep_view().take(i as int)));
    }
    assert(entries.deep_view().take(i as int) == entries.deep_view());
    found
}

/// The text that the standard base64 alphabet, with padding, gives for
/// `bytes`, as the `base64` crate's `STANDARD` engine encodes it.
pub uninterp spec fn base64_standard(bytes: Seq<u8>) -> Seq<char>;

/// Whether the encoded length of `len` bytes, four characters for every
/// three bytes or part of three, fits a `usize`.
pub open spec fn encoded_len_fits(len: nat) -> bool {
    (len / 3) * 4 + (if len % 3 > 0 {
        4nat
    } else {
        0nat
    }) <= usize::MAX
}

/// `Engine::encode` of `base64::engine::general_purpose::STANDARD` returns the
/// encoding of the input as a `String`. The text depends on the bytes alone
/// and is named by [`base64_standard`]. The engine panics when the encoded
/// length overflows `usize`, so such inputs are excluded.
#[verifier::external_body]
fn base64_encode(bytes: &[u8]) -> (text: String)
    requires
        encoded_len_fits(bytes@.len()),
    ensures
        text@ == base64_standard(bytes@),
{
    base64::Engine::encode(&base64::engine::general_purpose::STANDARD, bytes)
}

/// The image `path` with the given base64 content.
pub fn encoded_image(path: String, base64: String) -> (image: ImageBase64Search)
    ensures
        image@ == (ImageBase64SearchView { base64: base64@, path: path@ }),
{
    ImageBase64Search { base64, path }
}

/// What a read of the image `path` yields for a vision model: nothing if the
/// file could not be read or is too long to encode, else its base64 form.
pub open spec fn encoded(path: Seq<char>, bytes: Option<Seq<u8>>) -> Option<ImageBase64SearchView> {
    match bytes {
        Some(content) if encoded_len_fits(content.len()) => Some(
            ImageBase64SearchView { base64: base64_standard(content), path },
        ),
        _ => None,
    }
}

/// Prepares the image `img` for a vision model from the bytes read from it,
/// `None` standing for a file that could not be read.
pub fn img_path_to_base64(img: String, bytes: Option<&Vec<u8>>) -> (image: Option<ImageBase64Search>)
    ensures
        image.deep_view() == encoded(
            img@,
            match bytes {
                Some(content) => Some(content@),
                None => None,
            },
        ),
{
    match bytes {
        Some(content) => {
            let len = content.len();
            let tail: usize = if len % 3 > 0 {
                4
            } else {
                0
            };
            if len / 3 > (usize::MAX - tail) / 4 {
                assert(!encoded_len_fits(len as nat)) by (nonlinear_arith)
                    requires
                        len / 3 > (usize::MAX - tail) / 4,
                        tail == (if len % 3 > 0 {
                            4int
                        } else {
                            0int
                        }),
                ;
                None
            } else {
                assert(encoded_len_fits(len as nat)) by (nonlinear_arith)
                    requires
                        len / 3 <= (usize::MAX - tail) / 4,
                        tail == (if len % 3 > 0 {
                            4int
                        } else {
                            0int
                        }),
                ;
                Some(encoded_image(img, base64_encode(content.as_slice())))
            }
        },
        None => None,
    }
}

/// The readable images among `files`, encoded, in their order.
pub open spec fn encoded_all(files: Seq<ImageFileView>) -> Seq<ImageBase64SearchView>
    decreases files.len(),
{
    if files.len() == 0 {
        Seq::empty()
    } else {
        let head = encoded_all(files.drop_last());
        match encoded(files.last().path, files.last().bytes) {
            Some(image) => head.push(image),
            None => head,
        }
    }
}

/// Prepares every image of `files` for a vision model; a file that could not
/// be read is left out.
pub fn img_paths_to_base64(files: &Vec<ImageFile>) -> (images: Vec<ImageBase64Search>)
    ensures
        images.deep_view() == encoded_all(files.deep_view()),
{
    let mut images: Vec<ImageBase64Search> = Vec::new();
    let mut i: usize = 0;
    assert(files.deep_view().take(0) == Seq::<ImageFileView>::empty());
    assert(images.deep_view() == Seq::<ImageBase64SearchView>::empty());
    while i < files.len()
        invariant
            i <= files.len(),
            images.deep_view() == encoded_all(files.deep_view().take(i as int)),
        decreases files.len() - i,
    {
        let ghost before = images.deep_view();
        let ghost next = files.deep_view().take(i + 1);
        assert(next.drop_last() == files.deep_view().take(i as int));
        assert(next.last() == files[i as int]@);
        let image = img_path_to_base64(files[i].path.clone(), files[i].bytes.as_ref());
        if let Some(encoded) = image {
            images.push(encoded);
            assert(images.deep_view() == before.push(encoded@));
        }
        i += 1;
    }
    assert(files.deep_view().take(i as int) == files.deep_view());
    images
}

} // verus!
