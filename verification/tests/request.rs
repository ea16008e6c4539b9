use bookmeta::book::CoverImage;
use bookmeta::cache::cache_file_name;
use bookmeta::epub::ResourceEntry;
use bookmeta::error::{Asked, ExtractError, Missing};
use bookmeta::pdf::model::{PagedDocument, PdfDictionary, PdfDocument, PdfObject, PdfStream};
use bookmeta::request::{
    document_metadata, get_cover, get_metadata, package_metadata, CacheLookup, CoverStep,
    DocumentCover, FoundCover, MetadataStep, PackageCover, ResourceFetch, ResourceScan,
};

const JPEG: [u8; 5] = [0xFF, 0xD8, 0xFF, 0xFF, 0xD9];

const PNG: [u8; 8] = [0x89, 0x50, 0x4E, 0x47, 0x0D, 0x0A, 0x1A, 0x0A];

fn dict(entries: Vec<(&str, PdfObject)>) -> PdfDictionary {
    PdfDictionary { entries: entries.into_iter().map(|(k, v)| (k.as_bytes().to_vec(), v)).collect() }
}

/// A parsed file of one page with one image, as a host hands it over.
fn pdf_file(filter: &str, content: &[u8], title: Option<&str>) -> PagedDocument {
    let picture = PdfStream {
        dict: dict(vec![
            ("Subtype", PdfObject::Name(b"Image".to_vec())),
            ("Filter", PdfObject::Name(filter.as_bytes().to_vec())),
        ]),
        content: content.to_vec(),
    };
    let xobjects = dict(vec![("Im1", PdfObject::Reference((3, 0)))]);
    let resources = dict(vec![("XObject", PdfObject::Dictionary(xobjects))]);
    let page = dict(vec![("Resources", PdfObject::Dictionary(resources))]);
    let mut trailer = vec![("Root", PdfObject::Reference((4, 0)))];
    let mut objects = vec![
        ((2, 0), PdfObject::Dictionary(page)),
        ((3, 0), PdfObject::Stream(picture)),
    ];
    if let Some(title) = title {
        let info = dict(vec![("Title", PdfObject::Text(title.as_bytes().to_vec()))]);
        objects.push(((1, 0), PdfObject::Dictionary(info)));
        trailer.push(("Info", PdfObject::Reference((1, 0))));
    }
    PagedDocument { document: PdfDocument { trailer: dict(trailer), objects }, pages: vec![(2, 0)] }
}

fn lookup(step: CoverStep) -> CacheLookup {
    match step {
        CoverStep::LookUp(lookup) => lookup,
        other => panic!("expected a cache lookup, got {:?}", other),
    }
}

fn stored(step: CoverStep) -> FoundCover {
    match step {
        CoverStep::Store(found) => found,
        other => panic!("expected a cover to store, got {:?}", other),
    }
}

fn failure(step: CoverStep) -> ExtractError {
    match step {
        CoverStep::Fail(error) => error,
        other => panic!("expected a failure, got {:?}", other),
    }
}

fn png() -> CoverImage {
    CoverImage { bytes: PNG.to_vec(), mime: "image/png".to_string() }
}

fn entry(id: &str, mime: &str) -> ResourceEntry {
    ResourceEntry { id: id.to_string(), mime: mime.to_string() }
}

#[test]
fn metadata_of_a_missing_file_fails_first() {
    for path in ["/gone/book.epub", "/gone/book.pdf", "/gone/book.txt", ""] {
        match get_metadata(path, false) {
            MetadataStep::Fail(ExtractError::NotExist) => {},
            other => panic!("expected NotExist, got {:?}", other),
        }
    }
}

#[test]
fn metadata_is_routed_by_extension() {
    assert!(matches!(get_metadata("/b/moby.epub", true), MetadataStep::OpenPackage));
    assert!(matches!(get_metadata("/b/MOBY.EPUB", true), MetadataStep::OpenPackage));
    assert!(matches!(get_metadata("/b/moby.pdf", true), MetadataStep::ReadDocument));
    assert!(matches!(get_metadata("/b/moby.Pdf", true), MetadataStep::ReadDocument));
    assert!(matches!(
        get_metadata("/b/moby.djvu", true),
        MetadataStep::Fail(ExtractError::UnsupportedType(Asked::Metadata))
    ));
}

#[test]
fn package_metadata_takes_the_fields() {
    let book = package_metadata(Ok((Some("Emma".to_string()), Some("Jane Austen".to_string())))).unwrap();
    assert_eq!(book.title, Some("Emma".to_string()));
    assert_eq!(book.author, Some("Jane Austen".to_string()));
    let book = package_metadata(Ok((None, None))).unwrap();
    assert_eq!(book.title, None);
    assert_eq!(book.author, None);
}

#[test]
fn package_that_does_not_open_fails() {
    match package_metadata(Err("Invalid EPub".to_string())) {
        Err(ExtractError::OpenFailed(reason)) => assert_eq!(reason, "Invalid EPub"),
        other => panic!("expected an open failure, got {:?}", other),
    }
}

#[test]
fn document_metadata_reads_the_file() {
    let file = pdf_file("DCTDecode", &JPEG, Some("Moby Dick"));
    let book = document_metadata(Ok(file.document)).unwrap();
    assert_eq!(book.title, Some("Moby Dick".to_string()));
    assert_eq!(book.author, None);
    let book = document_metadata(Ok(pdf_file("DCTDecode", &JPEG, None).document)).unwrap();
    assert_eq!(book.title, None);
    assert_eq!(book.author, None);
}

#[test]
fn document_that_does_not_open_fails() {
    match document_metadata(Err("Permission denied (os error 13)".to_string())) {
        Err(ExtractError::OpenFailed(reason)) => assert_eq!(reason, "Permission denied (os error 13)"),
        other => panic!("expected an open failure, got {:?}", other),
    }
    match document_metadata(Err("Invalid file header".to_string())) {
        Err(error) => assert_eq!(error.message(), "Invalid file header"),
        other => panic!("expected an open failure, got {:?}", other),
    }
}

#[test]
fn cover_of_a_missing_file_fails_first() {
    for path in ["/gone/book.epub", "/gone/book.pdf", "/gone/book.txt", ""] {
        match get_cover(path, false) {
            CoverStep::Fail(ExtractError::NotExist) => {},
            other => panic!("expected NotExist, got {:?}", other),
        }
    }
}

#[test]
fn cover_request_asks_the_cache_first() {
    for path in ["/b/moby.epub", "/b/moby.pdf", "/b/moby.txt"] {
        let lookup = lookup(get_cover(path, true));
        assert_eq!(lookup.file_path, path);
        assert_eq!(lookup.file_name, cache_file_name(path));
    }
    assert_eq!(
        lookup(get_cover("hello world", true)).file_name,
        "b94d27b9934d3e08a52e52d7da7dabfac484efe37a5380ee9088f7ace2efcde9.jpg"
    );
}

#[test]
fn cached_cover_is_answered_without_the_document() {
    // whatever the extension: the document is not looked at
    for path in ["/b/moby.epub", "/b/moby.pdf", "/b/moby.txt"] {
        match lookup(get_cover(path, true)).answer(Some(PNG.to_vec())) {
            CoverStep::Respond(uri) => assert_eq!(uri, "data:image/jpeg;base64,iVBORw0KGgo="),
            other => panic!("expected an answer, got {:?}", other),
        }
    }
    match lookup(get_cover("/b/moby.pdf", true)).answer(Some(vec![])) {
        CoverStep::Respond(uri) => assert_eq!(uri, "data:image/jpeg;base64,"),
        other => panic!("expected an answer, got {:?}", other),
    }
}

#[test]
fn cache_miss_is_routed_by_extension() {
    match lookup(get_cover("/b/moby.EPUB", true)).answer(None) {
        CoverStep::OpenPackage(wait) => assert_eq!(wait.file_name, cache_file_name("/b/moby.EPUB")),
        other => panic!("expected the package to be opened, got {:?}", other),
    }
    match lookup(get_cover("/b/moby.pdf", true)).answer(None) {
        CoverStep::ReadDocument(wait) => assert_eq!(wait.file_name, cache_file_name("/b/moby.pdf")),
        other => panic!("expected the document to be read, got {:?}", other),
    }
    match lookup(get_cover("/b/moby.txt", true)).answer(None) {
        CoverStep::Fail(ExtractError::UnsupportedType(Asked::Cover)) => {},
        other => panic!("expected UnsupportedType, got {:?}", other),
    }
}

#[test]
fn pdf_cover_is_stored_and_answered() {
    let wait = DocumentCover { file_name: "k.jpg".to_string() };
    let found = stored(wait.answer(Ok(pdf_file("DCTDecode", &JPEG, None))));
    assert_eq!(found.file_name, "k.jpg");
    assert_eq!(found.cover.bytes, JPEG.to_vec());
    assert_eq!(found.cover.mime, "image/jpeg");
    assert_eq!(found.uri, "data:image/jpeg;base64,/9j//9k=");
}

#[test]
fn pdf_without_jpeg_has_no_cover() {
    let wait = DocumentCover { file_name: "k.jpg".to_string() };
    match failure(wait.answer(Ok(pdf_file("FlateDecode", &[1, 2, 3], None)))) {
        ExtractError::NotFound(Missing::JpegImage) => {},
        other => panic!("expected no JPEG image, got {:?}", other),
    }
}

#[test]
fn pdf_that_does_not_open_fails() {
    let wait = DocumentCover { file_name: "k.jpg".to_string() };
    match failure(wait.answer(Err("No such file or directory (os error 2)".to_string()))) {
        ExtractError::OpenFailed(reason) => assert_eq!(reason, "No such file or directory (os error 2)"),
        other => panic!("expected an open failure, got {:?}", other),
    }
    let wait = DocumentCover { file_name: "k.jpg".to_string() };
    assert_eq!(failure(wait.answer(Err("Invalid file header".to_string()))).message(), "Invalid file header");
}

#[test]
fn declared_cover_is_stored_with_its_type() {
    let wait = PackageCover { file_name: "k.jpg".to_string() };
    let found = stored(wait.answer(Ok(Some(png()))));
    assert_eq!(found.file_name, "k.jpg");
    assert_eq!(found.cover.bytes, PNG.to_vec());
    assert_eq!(found.cover.mime, "image/png");
    assert_eq!(found.uri, "data:image/png;base64,iVBORw0KGgo=");
}

#[test]
fn package_without_declared_cover_is_scanned() {
    let wait = PackageCover { file_name: "k.jpg".to_string() };
    match wait.answer(Ok(None)) {
        CoverStep::ListResources(scan) => assert_eq!(scan.file_name, "k.jpg"),
        other => panic!("expected a scan, got {:?}", other),
    }
}

#[test]
fn package_that_does_not_open_has_no_cover() {
    let wait = PackageCover { file_name: "k.jpg".to_string() };
    match failure(wait.answer(Err("Invalid EPub".to_string()))) {
        ExtractError::OpenFailed(reason) => assert_eq!(reason, "Invalid EPub"),
        other => panic!("expected an open failure, got {:?}", other),
    }
}

#[test]
fn resource_named_like_a_cover_is_read() {
    let scan = ResourceScan { file_name: "k.jpg".to_string() };
    let entries = vec![
        entry("chapter1", "application/xhtml+xml"),
        entry("style", "text/css"),
        entry("cover-image.jpg", "image/jpeg"),
        entry("jacket", "image/png"),
    ];
    match scan.answer(entries) {
        CoverStep::ReadResource(fetch) => {
            assert_eq!(fetch.id, "cover-image.jpg");
            assert_eq!(fetch.file_name, "k.jpg");
        },
        other => panic!("expected a resource to be read, got {:?}", other),
    }
}

#[test]
fn manifest_without_candidate_has_no_cover() {
    let scan = ResourceScan { file_name: "k.jpg".to_string() };
    match failure(scan.answer(vec![entry("cover", "text/html"), entry("pic", "image/png")])) {
        ExtractError::NotFound(Missing::EpubCover) => {},
        other => panic!("expected no cover, got {:?}", other),
    }
    let scan = ResourceScan { file_name: "k.jpg".to_string() };
    assert!(matches!(
        failure(scan.answer(vec![])),
        ExtractError::NotFound(Missing::EpubCover)
    ));
}

#[test]
fn resource_that_was_read_is_the_cover() {
    let fetch = ResourceFetch { file_name: "k.jpg".to_string(), id: "cover-image.jpg".to_string() };
    let cover = CoverImage { bytes: JPEG.to_vec(), mime: "image/jpeg".to_string() };
    let found = stored(fetch.answer(Some(cover)));
    assert_eq!(found.file_name, "k.jpg");
    assert_eq!(found.cover.bytes, JPEG.to_vec());
    assert_eq!(found.uri, "data:image/jpeg;base64,/9j//9k=");
}

#[test]
fn resource_that_is_not_there_is_no_cover() {
    let fetch = ResourceFetch { file_name: "k.jpg".to_string(), id: "cover".to_string() };
    assert!(matches!(
        failure(fetch.answer(None)),
        ExtractError::NotFound(Missing::EpubCover)
    ));
}

#[test]
fn whole_course_of_a_pdf_request() {
    let path = "/library/Moby Dick.PDF";
    let lookup = lookup(get_cover(path, true));
    let wait = match lookup.answer(None) {
        CoverStep::ReadDocument(wait) => wait,
        other => panic!("expected the document to be read, got {:?}", other),
    };
    let found = stored(wait.answer(Ok(pdf_file("DCTDecode", &JPEG, None))));
    assert_eq!(found.file_name, cache_file_name(path));
    // the second request finds what the first one stored
    match self::lookup(get_cover(path, true)).answer(Some(found.cover.bytes.clone())) {
        CoverStep::Respond(uri) => assert_eq!(uri, found.uri),
        other => panic!("expected an answer, got {:?}", other),
    }
}

#[test]
fn whole_course_of_an_epub_request() {
    let path = "/library/emma.epub";
    let wait = match lookup(get_cover(path, true)).answer(None) {
        CoverStep::OpenPackage(wait) => wait,
        other => panic!("expected the package to be opened, got {:?}", other),
    };
    let scan = match wait.answer(Ok(None)) {
        CoverStep::ListResources(scan) => scan,
        other => panic!("expected a scan, got {:?}", other),
    };
    let fetch = match scan.answer(vec![entry("toc", "application/x-dtbncx+xml"), entry("Cover", "image/png")]) {
        CoverStep::ReadResource(fetch) => fetch,
        other => panic!("expected a resource to be read, got {:?}", other),
    };
    assert_eq!(fetch.id, "Cover");
    let found = stored(fetch.answer(Some(png())));
    assert_eq!(found.file_name, cache_file_name(path));
    assert_eq!(found.uri, "data:image/png;base64,iVBORw0KGgo=");
    // read back from the cache, the same bytes are labelled as JPEG
    match lookup(get_cover(path, true)).answer(Some(found.cover.bytes)) {
        CoverStep::Respond(uri) => assert_eq!(uri, "data:image/jpeg;base64,iVBORw0KGgo="),
        other => panic!("expected an answer, got {:?}", other),
    }
}

#[test]
fn pdf_without_pages_has_no_cover() {
    let mut file = pdf_file("DCTDecode", &JPEG, None);
    file.pages.clear();
    let wait = DocumentCover { file_name: "k.jpg".to_string() };
    assert!(matches!(failure(wait.answer(Ok(file))), ExtractError::NotFound(Missing::Pages)));
}

#[test]
fn pdf_cover_is_searched_on_the_first_page() {
    let mut file = pdf_file("DCTDecode", &JPEG, None);
    file.document.objects.push(((9, 0), PdfObject::Dictionary(dict(vec![]))));
    file.pages.insert(0, (9, 0));
    let wait = DocumentCover { file_name: "k.jpg".to_string() };
    assert!(matches!(failure(wait.answer(Ok(file))), ExtractError::NotFound(Missing::Resources)));
}
