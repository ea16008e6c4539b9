//! The course of a request.
//!
//! A request needs the file system, the cover cache, the parser of PDF
//! files and, for EPUB, the opened package. The library touches none of
//! them. It says which step
//! comes next, the host carries the step out and reports what it found, and
//! the library says what follows from that. Each step that waits for an
//! answer is a value of its own type, so an answer can only be given to the
//! question that was asked.

use crate::book::{text_view, BookMetadata, CoverImage, CoverView, MetadataView};
use crate::cache::{cache_file_name, cache_file_of, cached_mime};
use crate::encoding::{data_uri, data_uri_of};
use crate::epub::{
    first_candidate, first_candidate_is_unique, has_no_candidate, manifest_view,
    pick_cover_resource, ResourceEntry, ResourceView,
};
use crate::error::{Asked, ErrorView, ExtractError, Missing};
use crate::kind::{document_kind, kind_of, DocumentKind};
use crate::pdf::extract::{cover_of, metadata_of};
use crate::pdf::model::{DocumentModel, PagedDocument, PagedModel, PdfDocument};
use vstd::prelude::*;
use vstd::string::*;

verus! {

/// What the host does next for a metadata request.
#[derive(Debug)]
pub enum MetadataStep {
    /// Open the EPUB package and hand its `title` and `creator` fields, or
    /// the reason why it could not be opened, to [`package_metadata`].
    OpenPackage,
    /// Read and parse the PDF file and hand the document, or the reason why
    /// it could not be read or parsed, to [`document_metadata`].
    ReadDocument,
    /// Answer the request with this error.
    Fail(ExtractError),
}

/// The mathematical value of a [`MetadataStep`].
pub enum MetadataStepView {
    OpenPackage,
    ReadDocument,
    Fail(ErrorView),
}

impl View for MetadataStep {
    type V = MetadataStepView;

    open spec fn view(&self) -> MetadataStepView {
        match *self {
            MetadataStep::OpenPackage => MetadataStepView::OpenPackage,
            MetadataStep::ReadDocument => MetadataStepView::ReadDocument,
            MetadataStep::Fail(error) => MetadataStepView::Fail(error@),
        }
    }
}

/// The first step of a metadata request: a path that names no file fails
/// before its extension is looked at, and an extension other than `.epub`
/// and `.pdf` fails before the file is opened.
pub open spec fn first_metadata_step(file_path: Seq<char>, exists: bool) -> MetadataStepView {
    if !exists {
        MetadataStepView::Fail(ErrorView::NotExist)
    } else {
        match kind_of(file_path) {
            DocumentKind::Epub => MetadataStepView::OpenPackage,
            DocumentKind::Pdf => MetadataStepView::ReadDocument,
            DocumentKind::Unsupported => MetadataStepView::Fail(
                ErrorView::UnsupportedType(Asked::Metadata),
            ),
        }
    }
}

/// The views of a result with its metadata or its error.
pub open spec fn metadata_result_view(result: Result<BookMetadata, ExtractError>) -> Result<
    MetadataView,
    ErrorView,
> {
    match result {
        Ok(book) => Ok(book@),
        Err(error) => Err(error@),
    }
}

/// The value of what opening a package brought: its `title` and `creator`
/// fields, or the reason why it could not be opened.
pub open spec fn fields_view(opened: Result<(Option<String>, Option<String>), String>) -> Result<
    (Option<Seq<char>>, Option<Seq<char>>),
    Seq<char>,
> {
    match opened {
        Ok(fields) => Ok((text_view(fields.0), text_view(fields.1))),
        Err(reason) => Err(reason@),
    }
}

/// The value of what parsing a PDF file brought: the document, or the reason
/// why the file could not be read or parsed.
pub open spec fn parsed_view(parsed: Result<PdfDocument, String>) -> Result<
    DocumentModel,
    Seq<char>,
> {
    match parsed {
        Ok(doc) => Ok(doc@),
        Err(reason) => Err(reason@),
    }
}

/// The value of what parsing a PDF file and walking its pages brought: the
/// document with its pages, or the reason why the file could not be read or
/// parsed.
pub open spec fn paged_view(parsed: Result<PagedDocument, String>) -> Result<
    PagedModel,
    Seq<char>,
> {
    match parsed {
        Ok(paged) => Ok(paged@),
        Err(reason) => Err(reason@),
    }
}

/// The value of what the cache holds: the bytes of the cache file, if there is one.
pub open spec fn cached_view(cached: Option<Vec<u8>>) -> Option<Seq<u8>> {
    match cached {
        Some(bytes) => Some(bytes@),
        None => None,
    }
}

/// The value of an image that may be missing.
pub open spec fn image_view(image: Option<CoverImage>) -> Option<CoverView> {
    match image {
        Some(cover) => Some(cover@),
        None => None,
    }
}

/// The value of what asking a package for its declared cover brought: the
/// cover, if one is declared, or the reason why the package could not be opened.
pub open spec fn declared_view(declared: Result<Option<CoverImage>, String>) -> Result<
    Option<CoverView>,
    Seq<char>,
> {
    match declared {
        Ok(image) => Ok(image_view(image)),
        Err(reason) => Err(reason@),
    }
}

/// The metadata of an EPUB package, from what opening it brought.
pub open spec fn package_metadata_of(
    opened: Result<(Option<Seq<char>>, Option<Seq<char>>), Seq<char>>,
) -> Result<MetadataView, ErrorView> {
    match opened {
        Ok(fields) => Ok(MetadataView { title: fields.0, author: fields.1 }),
        Err(reason) => Err(ErrorView::OpenFailed(reason)),
    }
}

/// The metadata of a PDF file, from what parsing it brought.
pub open spec fn document_metadata_of(parsed: Result<DocumentModel, Seq<char>>) -> Result<
    MetadataView,
    ErrorView,
> {
    match parsed {
        Ok(doc) => Ok(metadata_of(doc)),
        Err(reason) => Err(ErrorView::OpenFailed(reason)),
    }
}

/// Begins a metadata request for `file_path`. `exists` tells whether the
/// path names a file.
pub fn get_metadata(file_path: &str, exists: bool) -> (step: MetadataStep)
    ensures
        step@ == first_metadata_step(file_path@, exists),
{
    if !exists {
        return MetadataStep::Fail(ExtractError::NotExist);
    }
    match document_kind(file_path) {
        DocumentKind::Epub => MetadataStep::OpenPackage,
        DocumentKind::Pdf => MetadataStep::ReadDocument,
        DocumentKind::Unsupported => MetadataStep::Fail(
            ExtractError::UnsupportedType(Asked::Metadata),
        ),
    }
}

/// Ends a metadata request for an EPUB package. `opened` holds the
/// package's `title` and `creator` fields, or the reason why the package
/// could not be opened. A field that the package does not state is absent
/// from the result; that is no error.
pub fn package_metadata(opened: Result<(Option<String>, Option<String>), String>) -> (result:
    Result<BookMetadata, ExtractError>)
    ensures
        metadata_result_view(result) == package_metadata_of(fields_view(opened)),
{
    match opened {
        Ok((title, creator)) => Ok(crate::epub::metadata(title, creator)),
        Err(reason) => Err(ExtractError::OpenFailed(reason)),
    }
}

/// Ends a metadata request for a PDF file. `parsed` holds the parsed
/// document, or the reason why the file could not be read or parsed. The
/// pages of the document are not asked for.
pub fn document_metadata(parsed: Result<PdfDocument, String>) -> (result: Result<
    BookMetadata,
    ExtractError,
>)
    ensures
        metadata_result_view(result) == document_metadata_of(parsed_view(parsed)),
{
    match parsed {
        Ok(doc) => Ok(crate::pdf::extract::metadata(&doc)),
        Err(reason) => Err(ExtractError::OpenFailed(reason)),
    }
}

/// Waits for the cache: is there a file `file_name` in the cover cache, and
/// what does it hold?
#[derive(Debug)]
pub struct CacheLookup {
    pub file_path: String,
    pub file_name: String,
}

/// Waits for the PDF file to be parsed and its pages to be listed.
#[derive(Debug)]
pub struct DocumentCover {
    pub file_name: String,
}

/// Waits for the EPUB package to be opened and asked for its declared cover.
#[derive(Debug)]
pub struct PackageCover {
    pub file_name: String,
}

/// Waits for the resources of the package's manifest.
#[derive(Debug)]
pub struct ResourceScan {
    pub file_name: String,
}

/// Waits for the content of the resource `id`.
#[derive(Debug)]
pub struct ResourceFetch {
    pub file_name: String,
    pub id: String,
}

/// A cover that was found: the host writes the image to the cache file
/// `file_name` and answers the request with `uri`.
#[derive(Debug)]
pub struct FoundCover {
    pub file_name: String,
    pub cover: CoverImage,
    pub uri: String,
}

/// What the host does next for a cover request.
#[derive(Debug)]
pub enum CoverStep {
    /// Look into the cache and hand what it holds to [`CacheLookup::answer`].
    LookUp(CacheLookup),
    /// Read and parse the PDF file, list its pages, and hand both to
    /// [`DocumentCover::answer`].
    ReadDocument(DocumentCover),
    /// Open the EPUB package and hand its declared cover to [`PackageCover::answer`].
    OpenPackage(PackageCover),
    /// List the resources of the manifest and hand them to [`ResourceScan::answer`].
    ListResources(ResourceScan),
    /// Read a resource and hand its content to [`ResourceFetch::answer`].
    ReadResource(ResourceFetch),
    /// Store the cover in the cache, then answer the request with its URI.
    Store(FoundCover),
    /// Answer the request with this URI.
    Respond(String),
    /// Answer the request with this error.
    Fail(ExtractError),
}

/// The mathematical value of a [`CoverStep`].
pub enum CoverStepView {
    LookUp { file_path: Seq<char>, file_name: Seq<char> },
    ReadDocument { file_name: Seq<char> },
    OpenPackage { file_name: Seq<char> },
    ListResources { file_name: Seq<char> },
    ReadResource { file_name: Seq<char>, id: Seq<char> },
    Store { file_name: Seq<char>, cover: CoverView, uri: Seq<char> },
    Respond { uri: Seq<char> },
    Fail { error: ErrorView },
}

impl View for CoverStep {
    type V = CoverStepView;

    open spec fn view(&self) -> CoverStepView {
        match *self {
            CoverStep::LookUp(lookup) => CoverStepView::LookUp {
                file_path: lookup.file_path@,
                file_name: lookup.file_name@,
            },
            CoverStep::ReadDocument(wait) => CoverStepView::ReadDocument {
                file_name: wait.file_name@,
            },
            CoverStep::OpenPackage(wait) => CoverStepView::OpenPackage {
                file_name: wait.file_name@,
            },
            CoverStep::ListResources(wait) => CoverStepView::ListResources {
                file_name: wait.file_name@,
            },
            CoverStep::ReadResource(wait) => CoverStepView::ReadResource {
                file_name: wait.file_name@,
                id: wait.id@,
            },
            CoverStep::Store(found) => CoverStepView::Store {
                file_name: found.file_name@,
                cover: found.cover@,
                uri: found.uri@,
            },
            CoverStep::Respond(uri) => CoverStepView::Respond { uri: uri@ },
            CoverStep::Fail(error) => CoverStepView::Fail { error: error@ },
        }
    }
}

/// True for the steps that read from the document.
pub open spec fn reads_document(step: CoverStepView) -> bool {
    step is ReadDocument || step is OpenPackage || step is ListResources || step is ReadResource
}

/// True for the steps that end the request.
pub open spec fn ends_request(step: CoverStepView) -> bool {
    step is Store || step is Respond || step is Fail
}

/// The first step of a cover request: a path that names no file fails at
/// once; for any other path the cache is consulted.
pub open spec fn first_cover_step(file_path: Seq<char>, exists: bool) -> CoverStepView {
    if !exists {
        CoverStepView::Fail { error: ErrorView::NotExist }
    } else {
        CoverStepView::LookUp { file_path, file_name: cache_file_of(file_path) }
    }
}

/// The step after the cache was consulted. A cached cover is answered as it
/// is, as a JPEG image; without one the document is read, if its format is
/// supported.
pub open spec fn step_after_lookup(
    file_path: Seq<char>,
    file_name: Seq<char>,
    cached: Option<Seq<u8>>,
) -> CoverStepView {
    match cached {
        Some(bytes) => CoverStepView::Respond { uri: data_uri_of(cached_mime(), bytes) },
        None => match kind_of(file_path) {
            DocumentKind::Epub => CoverStepView::OpenPackage { file_name },
            DocumentKind::Pdf => CoverStepView::ReadDocument { file_name },
            DocumentKind::Unsupported => CoverStepView::Fail {
                error: ErrorView::UnsupportedType(Asked::Cover),
            },
        },
    }
}

/// The step for a cover that was found: it is stored under the request's
/// cache file and answered with the MIME type that came with it.
pub open spec fn step_for_cover(file_name: Seq<char>, cover: CoverView) -> CoverStepView {
    CoverStepView::Store { file_name, cover, uri: data_uri_of(cover.mime, cover.bytes) }
}

/// The step after the PDF file was parsed and its pages were listed.
pub open spec fn step_after_document(
    file_name: Seq<char>,
    parsed: Result<PagedModel, Seq<char>>,
) -> CoverStepView {
    match parsed {
        Err(reason) => CoverStepView::Fail { error: ErrorView::OpenFailed(reason) },
        Ok(paged) => match cover_of(paged.document, paged.pages) {
            Ok(image) => step_for_cover(file_name, CoverView { bytes: image, mime: "image/jpeg"@ }),
            Err(missing) => CoverStepView::Fail { error: ErrorView::NotFound(missing) },
        },
    }
}

/// The step after the EPUB package was opened and asked for its declared cover.
pub open spec fn step_after_package(
    file_name: Seq<char>,
    declared: Result<Option<CoverView>, Seq<char>>,
) -> CoverStepView {
    match declared {
        Err(reason) => CoverStepView::Fail { error: ErrorView::OpenFailed(reason) },
        Ok(Some(cover)) => step_for_cover(file_name, cover),
        Ok(None) => CoverStepView::ListResources { file_name },
    }
}

/// The step after the resources of the manifest were listed: the first that
/// may serve as the cover is read; without one the package has no cover.
pub open spec fn step_after_scan(file_name: Seq<char>, manifest: Seq<ResourceView>) -> CoverStepView {
    if has_no_candidate(manifest) {
        CoverStepView::Fail { error: ErrorView::NotFound(Missing::EpubCover) }
    } else {
        CoverStepView::ReadResource { file_name, id: manifest[first_candidate(manifest)].id }
    }
}

/// The step after a resource was read.
pub open spec fn step_after_fetch(file_name: Seq<char>, content: Option<CoverView>) -> CoverStepView {
    match content {
        Some(cover) => step_for_cover(file_name, cover),
        None => CoverStepView::Fail { error: ErrorView::NotFound(Missing::EpubCover) },
    }
}

/// Makes the last step for a cover that was found.
fn found(file_name: String, cover: CoverImage) -> (step: CoverStep)
    ensures
        step@ == step_for_cover(file_name@, cover@),
{
    let uri = data_uri(cover.mime.as_str(), cover.bytes.as_slice());
    CoverStep::Store(FoundCover { file_name, cover, uri })
}

/// Begins a cover request for `file_path`. `exists` tells whether the path
/// names a file.
pub fn get_cover(file_path: &str, exists: bool) -> (step: CoverStep)
    ensures
        step@ == first_cover_step(file_path@, exists),
{
    if !exists {
        return CoverStep::Fail(ExtractError::NotExist);
    }
    let file_name = cache_file_name(file_path);
    CoverStep::LookUp(CacheLookup { file_path: String::from_str(file_path), file_name })
}

impl CacheLookup {
    /// Goes on with what the cache holds for the request: the bytes of the
    /// cache file, or nothing where there is no such file.
    pub fn answer(self, cached: Option<Vec<u8>>) -> (step: CoverStep)
        ensures
            step@ == step_after_lookup(self.file_path@, self.file_name@, cached_view(cached)),
    {
        match cached {
            Some(bytes) => CoverStep::Respond(data_uri("image/jpeg", bytes.as_slice())),
            None => match document_kind(self.file_path.as_str()) {
                DocumentKind::Epub => CoverStep::OpenPackage(
                    PackageCover { file_name: self.file_name },
                ),
                DocumentKind::Pdf => CoverStep::ReadDocument(
                    DocumentCover { file_name: self.file_name },
                ),
                DocumentKind::Unsupported => CoverStep::Fail(
                    ExtractError::UnsupportedType(Asked::Cover),
                ),
            },
        }
    }
}

impl DocumentCover {
    /// Goes on with the parsed PDF file and the numbers of its pages, or
    /// with the reason why the file could not be read or parsed.
    pub fn answer(self, parsed: Result<PagedDocument, String>) -> (step: CoverStep)
        ensures
            step@ == step_after_document(self.file_name@, paged_view(parsed)),
    {
        let paged = match parsed {
            Ok(paged) => paged,
            Err(reason) => { return CoverStep::Fail(ExtractError::OpenFailed(reason)); },
        };
        match crate::pdf::extract::cover(&paged.document, paged.pages.as_slice()) {
            Ok(image) => found(self.file_name, image),
            Err(error) => CoverStep::Fail(error),
        }
    }
}

impl PackageCover {
    /// Goes on with the cover that the package declares, with nothing where
    /// it declares none, or with the reason why it could not be opened.
    pub fn answer(self, declared: Result<Option<CoverImage>, String>) -> (step: CoverStep)
        ensures
            step@ == step_after_package(self.file_name@, declared_view(declared)),
    {
        match declared {
            Err(reason) => CoverStep::Fail(ExtractError::OpenFailed(reason)),
            Ok(Some(cover)) => found(self.file_name, cover),
            Ok(None) => CoverStep::ListResources(ResourceScan { file_name: self.file_name }),
        }
    }
}

impl ResourceScan {
    /// Goes on with the resources of the manifest, in the order in which the
    /// package hands them out: the first that may serve as the cover is
    /// read; without one the package has no cover.
    pub fn answer(self, entries: Vec<ResourceEntry>) -> (step: CoverStep)
        ensures
            step@ == step_after_scan(self.file_name@, manifest_view(entries@)),
    {
        match pick_cover_resource(&entries) {
            Some(index) => {
                proof {
                    first_candidate_is_unique(manifest_view(entries@), index as int);
                }
                let id = entries[index].id.clone();
                CoverStep::ReadResource(ResourceFetch { file_name: self.file_name, id })
            },
            None => CoverStep::Fail(ExtractError::NotFound(Missing::EpubCover)),
        }
    }
}

impl ResourceFetch {
    /// Goes on with the content and MIME type of the resource, or with
    /// nothing where the package does not hold it.
    pub fn answer(self, content: Option<CoverImage>) -> (step: CoverStep)
        ensures
            step@ == step_after_fetch(self.file_name@, image_view(content)),
    {
        match content {
            Some(cover) => found(self.file_name, cover),
            None => CoverStep::Fail(ExtractError::NotFound(Missing::EpubCover)),
        }
    }
}

/// A cover that lies in the cache is answered at once. For a path that
/// names a file, the request first asks for the cache file of the path;
/// where the cache holds it, the next step ends the request with the cached
/// bytes as a JPEG image. No step reads from the document, whatever its
/// extension and whatever has become of its content.
pub proof fn cached_cover_is_answered_at_once(file_path: Seq<char>, cached: Seq<u8>)
    ensures
        first_cover_step(file_path, true) == (CoverStepView::LookUp {
            file_path,
            file_name: cache_file_of(file_path),
        }),
        step_after_lookup(file_path, cache_file_of(file_path), Some(cached)) == (
        CoverStepView::Respond { uri: data_uri_of("image/jpeg"@, cached) }),
        ends_request(step_after_lookup(file_path, cache_file_of(file_path), Some(cached))),
        !reads_document(step_after_lookup(file_path, cache_file_of(file_path), Some(cached))),
{
}

/// A cover that was found goes to the cache file of its request: whichever
/// way it was found, the step that ends the request names the file that the
/// lookup asked for, and the URI in it holds the cover's own bytes under the
/// cover's own MIME type. A declared cover and a resource are handed on as
/// they came; the image of a PDF page is a JPEG image.
pub proof fn found_cover_goes_to_the_request_file(
    file_name: Seq<char>,
    parsed: Result<PagedModel, Seq<char>>,
    declared: Result<Option<CoverView>, Seq<char>>,
    fetched: Option<CoverView>,
)
    ensures
        step_after_document(file_name, parsed) matches CoverStepView::Store {
            file_name: target,
            cover,
            uri,
        } ==> target == file_name && uri == data_uri_of(cover.mime, cover.bytes) && cover.mime
            == "image/jpeg"@,
        step_after_package(file_name, declared) matches CoverStepView::Store {
            file_name: target,
            cover,
            uri,
        } ==> target == file_name && uri == data_uri_of(cover.mime, cover.bytes) && declared
            == Ok::<Option<CoverView>, Seq<char>>(Some(cover)),
        step_after_fetch(file_name, fetched) matches CoverStepView::Store {
            file_name: target,
            cover,
            uri,
        } ==> target == file_name && uri == data_uri_of(cover.mime, cover.bytes) && fetched
            == Some(cover),
{
}

/// A path that names no file fails at once, for metadata and for the cover:
/// the first step is the error, whatever the extension of the path.
pub proof fn missing_file_fails_at_once(file_path: Seq<char>)
    ensures
        first_metadata_step(file_path, false) == MetadataStepView::Fail(ErrorView::NotExist),
        first_cover_step(file_path, false) == (CoverStepView::Fail { error: ErrorView::NotExist }),
{
}

} // verus!
