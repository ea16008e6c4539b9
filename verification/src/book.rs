//! What a request hands back: the metadata of a book and its cover image.

use vstd::prelude::*;

verus! {

/// Title and author of a book. A document need not declare either.
#[derive(Debug)]
pub struct BookMetadata {
    pub title: Option<String>,
    pub author: Option<String>,
}

/// The mathematical value of a [`BookMetadata`].
pub struct MetadataView {
    pub title: Option<Seq<char>>,
    pub author: Option<Seq<char>>,
}

/// The characters of an optional string.
pub open spec fn text_view(text: Option<String>) -> Option<Seq<char>> {
    match text {
        Some(t) => Some(t@),
        None => None,
    }
}

impl View for BookMetadata {
    type V = MetadataView;

    open spec fn view(&self) -> MetadataView {
        MetadataView { title: text_view(self.title), author: text_view(self.author) }
    }
}

/// An image as it lies in its container, with the MIME type stated for it.
#[derive(Debug)]
pub struct CoverImage {
    pub bytes: Vec<u8>,
    pub mime: String,
}

/// The mathematical value of a [`CoverImage`].
pub struct CoverView {
    pub bytes: Seq<u8>,
    pub mime: Seq<char>,
}

impl View for CoverImage {
    type V = CoverView;

    open spec fn view(&self) -> CoverView {
        CoverView { bytes: self.bytes@, mime: self.mime@ }
    }
}

} // verus!
