//! The container format of a document, told from the extension of its path.

use crate::chars::{chars_of, ends_with, has_suffix, lowercase, to_lowercase};
use vstd::prelude::*;

verus! {

/// The formats that a path can name.
#[derive(Clone, Copy, Debug, PartialEq, Eq, Structural)]
pub enum DocumentKind {
    Epub,
    Pdf,
    Unsupported,
}

/// The format that a path in lower case names: it ends with `.epub` or with
/// `.pdf`, or the format is not supported.
pub open spec fn kind_by_suffix(lower: Seq<char>) -> DocumentKind {
    if ends_with(lower, ".epub"@) {
        DocumentKind::Epub
    } else if ends_with(lower, ".pdf"@) {
        DocumentKind::Pdf
    } else {
        DocumentKind::Unsupported
    }
}

/// The format that a path names: the format that its lower-case form names.
pub open spec fn kind_of(path: Seq<char>) -> DocumentKind {
    kind_by_suffix(lowercase(path))
}

/// Tells the format that a path names, given the path in lower case.
pub fn kind_by_extension(lower: &[char]) -> (kind: DocumentKind)
    ensures
        kind == kind_by_suffix(lower@),
{
    let epub = chars_of(".epub");
    let pdf = chars_of(".pdf");
    if has_suffix(lower, epub.as_slice()) {
        DocumentKind::Epub
    } else if has_suffix(lower, pdf.as_slice()) {
        DocumentKind::Pdf
    } else {
        DocumentKind::Unsupported
    }
}

/// Tells the format of a document from its path, whatever the case of the
/// extension's letters.
pub fn document_kind(path: &str) -> (kind: DocumentKind)
    ensures
        kind == kind_of(path@),
{
    let lower = to_lowercase(path);
    let letters = chars_of(lower.as_str());
    kind_by_extension(letters.as_slice())
}

} // verus!
