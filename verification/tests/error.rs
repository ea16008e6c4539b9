use bookmeta::error::{Asked, ExtractError, Missing};

#[test]
fn every_error_has_its_text() {
    assert_eq!(ExtractError::NotExist.message(), "File does not exist");
    assert_eq!(ExtractError::UnsupportedType(Asked::Metadata).message(), "Unsupported file type");
    assert_eq!(
        ExtractError::UnsupportedType(Asked::Cover).message(),
        "Unsupported file type or no cover found"
    );
    assert_eq!(ExtractError::OpenFailed("Invalid file header".to_string()).message(), "Invalid file header");
    assert_eq!(ExtractError::NotFound(Missing::Pages).message(), "No pages found");
    assert_eq!(ExtractError::NotFound(Missing::Resources).message(), "No resources found on first page");
    assert_eq!(ExtractError::NotFound(Missing::XObjects).message(), "No XObjects found on first page");
    assert_eq!(
        ExtractError::NotFound(Missing::JpegImage).message(),
        "No suitable JPEG cover found in PDF"
    );
    assert_eq!(ExtractError::NotFound(Missing::EpubCover).message(), "No cover found in EPUB");
}

#[test]
fn missing_steps_have_their_text() {
    assert_eq!(Missing::Pages.message(), "No pages found");
    assert_eq!(Missing::EpubCover.message(), "No cover found in EPUB");
    assert_eq!(Missing::Pages, Missing::Pages);
    assert_ne!(Missing::Pages, Missing::Resources);
}
