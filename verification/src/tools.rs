//! The tools that the image agent offers to the model.
//!
//! The host lists the directory entries; what is reported back to the model
//! is decided here.

use vstd::prelude::*;
use crate::text::{contains, join, join_with, str_contains};
use crate::utils::{PathEntry, PathEntryView};

verus! {

impl PathEntryView {
    /// Whether a listing of one directory reports the entry: its path is
    /// valid Unicode and its extension is that of an image.
    pub open spec fn is_listed(self) -> bool {
        self.unicode && self.has_image_extension()
    }

    /// Whether a listing of a whole tree reports the entry: as in one
    /// directory, but a directory itself is never reported.
    pub open spec fn is_listed_in_tree(self) -> bool {
        !self.is_dir && self.is_listed()
    }
}

/// The paths of the entries that a listing reports, in their order; `deep`
/// tells a listing of a whole tree from that of one directory.
pub open spec fn listed(entries: Seq<PathEntryView>, deep: bool) -> Seq<Seq<char>> {
    let kept = entries.filter(
        |e: PathEntryView|
            if deep {
                e.is_listed_in_tree()
            } else {
                e.is_listed()
            },
    );
    Seq::new(kept.len(), |i: int| kept[i].path)
}

fn list_images(entries: &Vec<PathEntry>, deep: bool) -> (imgs: Vec<String>)
    ensures
        imgs.deep_view() == listed(entries.deep_view(), deep),
{
    let mut imgs: Vec<String> = Vec::new();
    let mut i: usize = 0;
    let ghost keep = |e: PathEntryView|
        if deep {
            e.is_listed_in_tree()
        } else {
            e.is_listed()
        };
    assert(entries.deep_view().take(0) == Seq::<PathEntryView>::empty());
    proof {
        reveal(Seq::filter);
    }
    assert(imgs.deep_view() == listed(entries.deep_view().take(0), deep));
    while i < entries.len()
        invariant
            i <= entries.len(),
            keep == |e: PathEntryView|
                if deep {
                    e.is_listed_in_tree()
                } else {
                    e.is_listed()
                },
            imgs.deep_view() == listed(entries.deep_view().take(i as int), deep),
        decreases entries.len() - i,
    {
        let ghost seen = entries.deep_view().take(i as int);
        let ghost before = imgs.deep_view();
        let entry = &entries[i];
        proof {
            seen.lemma_filter_push(entry@, keep);
            assert(entries.deep_view().take(i + 1) == seen.push(entry@));
        }
        if !(deep && entry.is_dir) && entry.unicode && entry.has_image_extension() {
            imgs.push(entry.path.clone());
            assert(imgs.deep_view() == before.push(entry@.path));
        }
        i += 1;
        assert(imgs.deep_view() == listed(entries.deep_view().take(i as int), deep));
    }
    assert(entries.deep_view().take(i as int) == entries.deep_view());
    imgs
}

/// Reports the image files among the entries of one directory, one path per line.
pub fn get_images_from_path(entries: &Vec<PathEntry>) -> (report: String)
    ensures
        report@ == join(listed(entries.deep_view(), false), "\n"@),
{
    let imgs = list_images(entries, false);
    join_with(&imgs, "\n")
}

/// Reports the image files among the entries of a directory tree, given in
/// the order in which the tree is walked, one path per line.
pub fn search_images_from_path(entries: &Vec<PathEntry>) -> (report: String)
    ensures
        report@ == join(listed(entries.deep_view(), true), "\n"@),
{
    let imgs = list_images(entries, true);
    join_with(&imgs, "\n")
}

/// Reports `true` if `path` holds `substring` as a part, else `false`.
pub fn path_contains_substring(path: String, substring: String) -> (report: String)
    ensures
        report@ == if contains(path@, substring@) {
            "true"@
        } else {
            "false"@
        },
{
    if str_contains(path.as_str(), substring.as_str()) {
        "true".to_owned()
    } else {
        "false".to_owned()
    }
}

} // verus!
