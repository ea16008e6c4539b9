//! The ways in which a request can fail.

use vstd::prelude::*;
use vstd::string::*;

verus! {

/// The step of a cover search at which nothing was found.
#[derive(Clone, Copy, Debug, PartialEq, Eq, Structural)]
pub enum Missing {
    /// The PDF has no pages, or its first page is no dictionary.
    Pages,
    /// The first page has no resource dictionary.
    Resources,
    /// The resources of the first page hold no XObject dictionary.
    XObjects,
    /// No XObject of the first page is a JPEG image stream.
    JpegImage,
    /// The EPUB neither declares a cover nor holds a resource that looks like one.
    EpubCover,
}

/// What a request asks for.
#[derive(Clone, Copy, Debug, PartialEq, Eq, Structural)]
pub enum Asked {
    Metadata,
    Cover,
}

/// Why a request produced no result. Every error ends the request.
#[derive(Debug)]
pub enum ExtractError {
    /// The path names no file.
    NotExist,
    /// The file's extension is neither `.epub` nor `.pdf`; the request asked
    /// for the given thing.
    UnsupportedType(Asked),
    /// The container could not be read or parsed; the text says why.
    OpenFailed(String),
    /// The container was opened, but it holds no usable cover.
    NotFound(Missing),
}

/// The mathematical value of an [`ExtractError`].
pub enum ErrorView {
    NotExist,
    UnsupportedType(Asked),
    OpenFailed(Seq<char>),
    NotFound(Missing),
}

impl View for ExtractError {
    type V = ErrorView;

    open spec fn view(&self) -> ErrorView {
        match *self {
            ExtractError::NotExist => ErrorView::NotExist,
            ExtractError::UnsupportedType(asked) => ErrorView::UnsupportedType(asked),
            ExtractError::OpenFailed(reason) => ErrorView::OpenFailed(reason@),
            ExtractError::NotFound(missing) => ErrorView::NotFound(missing),
        }
    }
}

/// The text shown for a search that came up empty.
pub open spec fn missing_text(missing: Missing) -> Seq<char> {
    match missing {
        Missing::Pages => "No pages found"@,
        Missing::Resources => "No resources found on first page"@,
        Missing::XObjects => "No XObjects found on first page"@,
        Missing::JpegImage => "No suitable JPEG cover found in PDF"@,
        Missing::EpubCover => "No cover found in EPUB"@,
    }
}

/// The text shown for a file of a type that is not supported.
pub open spec fn unsupported_text(asked: Asked) -> Seq<char> {
    match asked {
        Asked::Metadata => "Unsupported file type"@,
        Asked::Cover => "Unsupported file type or no cover found"@,
    }
}

/// The text shown for an error. An open failure shows the container's own words.
pub open spec fn error_text(error: ErrorView) -> Seq<char> {
    match error {
        ErrorView::NotExist => "File does not exist"@,
        ErrorView::UnsupportedType(asked) => unsupported_text(asked),
        ErrorView::OpenFailed(reason) => reason,
        ErrorView::NotFound(missing) => missing_text(missing),
    }
}

impl Missing {
    /// The description of the empty step.
    pub fn message(&self) -> (text: String)
        ensures
            text@ == missing_text(*self),
    {
        match self {
            Missing::Pages => String::from_str("No pages found"),
            Missing::Resources => String::from_str("No resources found on first page"),
            Missing::XObjects => String::from_str("No XObjects found on first page"),
            Missing::JpegImage => String::from_str("No suitable JPEG cover found in PDF"),
            Missing::EpubCover => String::from_str("No cover found in EPUB"),
        }
    }
}

impl ExtractError {
    /// The plain description handed to the caller of a failed request.
    pub fn message(&self) -> (text: String)
        ensures
            text@ == error_text(self@),
    {
        match self {
            ExtractError::NotExist => String::from_str("File does not exist"),
            ExtractError::UnsupportedType(Asked::Metadata) => String::from_str(
                "Unsupported file type",
            ),
            ExtractError::UnsupportedType(Asked::Cover) => String::from_str(
                "Unsupported file type or no cover found",
            ),
            ExtractError::OpenFailed(reason) => reason.clone(),
            ExtractError::NotFound(missing) => missing.message(),
        }
    }
}

} // verus!
