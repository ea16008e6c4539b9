//! The rules for EPUB packages.
//!
//! The host opens the package and reads from it; this module decides what
//! the answers mean. Title and author are the package's `title` and
//! `creator` fields. The cover is the image that the package declares as
//! its cover; where it declares none, the first resource of the manifest
//! whose identifier reads like a cover and whose type is an image.

use crate::book::{text_view, BookMetadata, MetadataView};
use crate::chars::{chars_of, contains, has_prefix, has_word, lowercase, starts_with, to_lowercase};
use vstd::prelude::*;

verus! {

/// A resource of the manifest: its identifier and its declared MIME type.
#[derive(Debug)]
pub struct ResourceEntry {
    pub id: String,
    pub mime: String,
}

/// True when an identifier in lower case holds `cover` or `jacket`, and the
/// type begins with `image/`.
pub open spec fn reads_like_cover(lower_id: Seq<char>, mime: Seq<char>) -> bool {
    (contains(lower_id, "cover"@) || contains(lower_id, "jacket"@)) && starts_with(mime, "image/"@)
}

/// True when a resource may serve as the cover: its identifier holds `cover`
/// or `jacket`, in any case of the letters, and its type begins with `image/`.
pub open spec fn looks_like_cover(id: Seq<char>, mime: Seq<char>) -> bool {
    reads_like_cover(lowercase(id), mime)
}

/// The mathematical value of a [`ResourceEntry`].
pub struct ResourceView {
    pub id: Seq<char>,
    pub mime: Seq<char>,
}

impl View for ResourceEntry {
    type V = ResourceView;

    open spec fn view(&self) -> ResourceView {
        ResourceView { id: self.id@, mime: self.mime@ }
    }
}

/// The value of a list of resources: the values of the resources in their order.
pub open spec fn manifest_view(entries: Seq<ResourceEntry>) -> Seq<ResourceView> {
    Seq::new(entries.len(), |i: int| entries[i]@)
}

/// True when the resource may serve as the cover.
pub open spec fn is_candidate(resource: ResourceView) -> bool {
    looks_like_cover(resource.id, resource.mime)
}

/// True when the resource at `index` is the first that may serve as the cover.
pub open spec fn is_first_candidate(manifest: Seq<ResourceView>, index: int) -> bool {
    &&& 0 <= index < manifest.len()
    &&& is_candidate(manifest[index])
    &&& forall|earlier: int| 0 <= earlier < index ==> !is_candidate(#[trigger] manifest[earlier])
}

/// True when no resource may serve as the cover.
pub open spec fn has_no_candidate(manifest: Seq<ResourceView>) -> bool {
    forall|index: int| 0 <= index < manifest.len() ==> !is_candidate(#[trigger] manifest[index])
}

/// The position of the first resource that may serve as the cover, where
/// there is one.
pub open spec fn first_candidate(manifest: Seq<ResourceView>) -> int {
    choose|index: int| is_first_candidate(manifest, index)
}

/// There is one first candidate at most.
pub proof fn first_candidate_is_unique(manifest: Seq<ResourceView>, index: int)
    requires
        is_first_candidate(manifest, index),
    ensures
        first_candidate(manifest) == index,
        !has_no_candidate(manifest),
{
    let chosen = first_candidate(manifest);
    assert(is_first_candidate(manifest, chosen));
    if chosen < index {
        assert(!is_candidate(manifest[chosen]));
    }
    if index < chosen {
        assert(!is_candidate(manifest[index]));
    }
}

/// The metadata of a package with the given `title` and `creator` fields.
pub fn metadata(title: Option<String>, creator: Option<String>) -> (book: BookMetadata)
    ensures
        book@ == (MetadataView { title: text_view(title), author: text_view(creator) }),
{
    BookMetadata { title, author: creator }
}

/// Tells whether an identifier, given in lower case, and a type read like
/// those of a cover image.
pub fn names_cover_image(lower_id: &[char], mime: &[char]) -> (yes: bool)
    ensures
        yes == reads_like_cover(lower_id@, mime@),
{
    let cover = chars_of("cover");
    let jacket = chars_of("jacket");
    let image = chars_of("image/");
    (has_word(lower_id, cover.as_slice()) || has_word(lower_id, jacket.as_slice())) && has_prefix(
        mime,
        image.as_slice(),
    )
}

/// Tells whether a resource may serve as the cover.
pub fn is_cover_candidate(entry: &ResourceEntry) -> (yes: bool)
    ensures
        yes == is_candidate(entry@),
{
    let lower = to_lowercase(entry.id.as_str());
    let id = chars_of(lower.as_str());
    let mime = chars_of(entry.mime.as_str());
    names_cover_image(id.as_slice(), mime.as_slice())
}

/// Picks the resource to use as the cover of a package that declares none:
/// the first, in the order in which the resources are given, that may serve
/// as the cover.
pub fn pick_cover_resource(entries: &Vec<ResourceEntry>) -> (picked: Option<usize>)
    ensures
        match picked {
            Some(index) => is_first_candidate(manifest_view(entries@), index as int),
            None => has_no_candidate(manifest_view(entries@)),
        },
{
    let ghost manifest = manifest_view(entries@);
    let mut at: usize = 0;
    while at < entries.len()
        invariant
            at <= entries.len(),
            manifest == manifest_view(entries@),
            forall|earlier: int| 0 <= earlier < at ==> !is_candidate(#[trigger] manifest[earlier]),
        decreases entries.len() - at,
    {
        assert(manifest[at as int] == entries@[at as int]@);
        if is_cover_candidate(&entries[at]) {
            return Some(at);
        }
        at = at + 1;
    }
    None
}

} // verus!
