//! Title, author and cover of a parsed PDF document.
//!
//! Where a rule asks for the object behind a number (the information
//! dictionary, the first page, an image) and the numbered object is itself
//! a reference, the references are followed from object to object. Where a
//! dictionary holds `Resources` or `XObject` as a reference, that
//! reference is followed one step: the object with its number has to be the
//! dictionary.

use crate::book::{text_view, BookMetadata, CoverImage, MetadataView};
use crate::error::{ErrorView, ExtractError, Missing};
use crate::pdf::model::{
    ascii, ascii_bytes, bytes_equal, lookup_entry, value_of_parts, DictionaryModel, DocumentModel,
    ObjectId, ObjectModel, PdfDictionary, PdfDocument, PdfObject, PdfStream, StreamModel,
};
use crate::text::{decode_pdf_text, decode_text};
use vstd::prelude::*;
use vstd::string::*;

verus! {

/// The document information dictionary: the trailer's `Info` entry has to
/// be a reference, and the object behind its number a dictionary.
pub open spec fn info_dictionary(doc: DocumentModel) -> Option<DictionaryModel> {
    match lookup_entry(doc.trailer, ascii("Info"@)) {
        Some(ObjectModel::Reference(id)) => match doc.resolved(id) {
            Some(ObjectModel::Dictionary(info)) => Some(info),
            _ => None,
        },
        _ => None,
    }
}

/// The decoded text stored under `key`, where the value is a string object.
pub open spec fn text_entry(dict: DictionaryModel, key: Seq<u8>) -> Option<Seq<char>> {
    match lookup_entry(dict, key) {
        Some(ObjectModel::Text(bytes)) => Some(decode_text(bytes)),
        _ => None,
    }
}

/// Title and author as the document states them. A document without an
/// information dictionary states neither.
pub open spec fn metadata_of(doc: DocumentModel) -> MetadataView {
    match info_dictionary(doc) {
        Some(info) => MetadataView {
            title: text_entry(info, ascii("Title"@)),
            author: text_entry(info, ascii("Author"@)),
        },
        None => MetadataView { title: None, author: None },
    }
}

/// True when a `Filter` entry names the DCT filter: as a single name, or as
/// one of the names of an array.
pub open spec fn names_dct_filter(filter: ObjectModel) -> bool {
    match filter {
        ObjectModel::Name(name) => name == ascii("DCTDecode"@),
        ObjectModel::Array(items) => exists|i: int|
            0 <= i < items.len() && (#[trigger] items[i]).is_name(ascii("DCTDecode"@)),
        _ => false,
    }
}

/// True when the stream is an image whose content is a JPEG file as it stands.
pub open spec fn is_jpeg_image(stream: StreamModel) -> bool {
    &&& lookup_entry(stream.dict, ascii("Subtype"@)) matches Some(subtype)
    &&& subtype.is_name(ascii("Image"@))
    &&& lookup_entry(stream.dict, ascii("Filter"@)) matches Some(filter)
    &&& names_dct_filter(filter)
}

/// The JPEG image stream that an XObject entry refers to: the entry has to
/// be a reference, and the object behind its number a stream that is a JPEG
/// image.
pub open spec fn jpeg_behind(doc: DocumentModel, value: ObjectModel) -> Option<StreamModel> {
    match value {
        ObjectModel::Reference(id) => match doc.resolved(id) {
            Some(ObjectModel::Stream(stream)) => if is_jpeg_image(stream) {
                Some(stream)
            } else {
                None
            },
            _ => None,
        },
        _ => None,
    }
}

/// The first JPEG image stream among the entries, in their stored order.
pub open spec fn first_jpeg(doc: DocumentModel, entries: DictionaryModel) -> Option<StreamModel>
    decreases entries.len(),
{
    if entries.len() == 0 {
        None
    } else {
        match jpeg_behind(doc, entries[0].1) {
            Some(stream) => Some(stream),
            None => first_jpeg(doc, entries.skip(1)),
        }
    }
}

/// The dictionary of the first page: the object behind the first of the
/// page numbers, which has to be a dictionary.
pub open spec fn first_page(doc: DocumentModel, pages: Seq<ObjectId>) -> Option<DictionaryModel> {
    if pages.len() == 0 {
        None
    } else {
        match doc.resolved(pages[0]) {
            Some(ObjectModel::Dictionary(page)) => Some(page),
            _ => None,
        }
    }
}

/// The dictionary stored under `key`: the value itself where it is a
/// dictionary, the object with its number where it is a reference to a
/// dictionary. Here a reference is followed one step only.
pub open spec fn dictionary_entry(doc: DocumentModel, dict: DictionaryModel, key: Seq<u8>) -> Option<
    DictionaryModel,
> {
    match lookup_entry(dict, key) {
        Some(value) => doc.dictionary_of(value),
        None => None,
    }
}

/// The outcome of the cover search in a document whose pages have the
/// numbers `pages`, in page order: the content of the first JPEG image among
/// the XObjects of the first page, or the step at which the search ended.
pub open spec fn cover_of(doc: DocumentModel, pages: Seq<ObjectId>) -> Result<Seq<u8>, Missing> {
    match first_page(doc, pages) {
        None => Err(Missing::Pages),
        Some(page) => match dictionary_entry(doc, page, ascii("Resources"@)) {
            None => Err(Missing::Resources),
            Some(resources) => match dictionary_entry(doc, resources, ascii("XObject"@)) {
                None => Err(Missing::XObjects),
                Some(xobjects) => match first_jpeg(doc, xobjects) {
                    None => Err(Missing::JpegImage),
                    Some(stream) => Ok(stream.content),
                },
            },
        },
    }
}

/// Reads the string stored under `key` and decodes it.
fn read_text(dict: &PdfDictionary, key: &[u8]) -> (text: Option<String>)
    ensures
        text_view(text) == text_entry(dict@, key@),
{
    match dict.get(key) {
        Some(PdfObject::Text(bytes)) => Some(decode_pdf_text(bytes.as_slice())),
        _ => None,
    }
}

/// Reads title and author from the document information dictionary. Neither
/// a missing dictionary nor a missing field is an error.
pub fn metadata(doc: &PdfDocument) -> (book: BookMetadata)
    ensures
        book@ == metadata_of(doc@),
{
    proof {
        reveal_strlit("Info");
        reveal_strlit("Title");
        reveal_strlit("Author");
    }
    let info = match doc.trailer.get(ascii_bytes("Info")) {
        Some(PdfObject::Reference(id)) => match doc.resolve_object(*id) {
            Some(object) => {
                proof {
                    value_of_parts(*object);
                }
                match object {
                    PdfObject::Dictionary(info) => info,
                    _ => { return BookMetadata { title: None, author: None }; },
                }
            },
            None => { return BookMetadata { title: None, author: None }; },
        },
        _ => { return BookMetadata { title: None, author: None }; },
    };
    let title = read_text(info, ascii_bytes("Title"));
    let author = read_text(info, ascii_bytes("Author"));
    BookMetadata { title, author }
}

/// Tells whether a `Filter` entry names the DCT filter.
fn has_dct_filter(filter: &PdfObject) -> (yes: bool)
    ensures
        yes == names_dct_filter(filter@),
{
    proof {
        reveal_strlit("DCTDecode");
        value_of_parts(*filter);
    }
    let dct = ascii_bytes("DCTDecode");
    match filter {
        PdfObject::Name(name) => bytes_equal(name.as_slice(), dct),
        PdfObject::Array(items) => {
            let ghost values = Seq::new(items@.len(), |i: int| items@[i]@);
            let mut at: usize = 0;
            while at < items.len()
                invariant
                    at <= items.len(),
                    filter@ == ObjectModel::Array(values),
                    values == Seq::new(items@.len(), |i: int| items@[i]@),
                    dct@ == ascii("DCTDecode"@),
                    forall|i: int| 0 <= i < at ==> !(#[trigger] values[i]).is_name(dct@),
                decreases items.len() - at,
            {
                if items[at].has_name(dct) {
                    assert(names_dct_filter(filter@)) by {
                        assert(filter@ matches ObjectModel::Array(held) && held == values);
                        assert(values[at as int] == items@[at as int]@);
                        assert(values[at as int].is_name(ascii("DCTDecode"@)));
                    }
                    return true;
                }
                assert(values[at as int] == items@[at as int]@);
                at = at + 1;
            }
            false
        },
        _ => false,
    }
}

/// Tells whether the stream is a JPEG image: its `Subtype` is the name
/// `Image`, and its `Filter` names the DCT filter.
pub fn holds_jpeg_image(stream: &PdfStream) -> (yes: bool)
    ensures
        yes == is_jpeg_image(stream@),
{
    proof {
        reveal_strlit("Subtype");
        reveal_strlit("Image");
        reveal_strlit("Filter");
    }
    match stream.dict.get(ascii_bytes("Subtype")) {
        Some(subtype) => {
            if !subtype.has_name(ascii_bytes("Image")) {
                return false;
            }
        },
        None => { return false; },
    }
    match stream.dict.get(ascii_bytes("Filter")) {
        Some(filter) => has_dct_filter(filter),
        None => false,
    }
}

/// Finds the JPEG image stream that an XObject entry refers to.
fn find_jpeg_behind<'a>(doc: &'a PdfDocument, value: &PdfObject) -> (found: Option<&'a PdfStream>)
    ensures
        match found {
            Some(stream) => jpeg_behind(doc@, value@) == Some(stream@),
            None => jpeg_behind(doc@, value@) is None,
        },
{
    match value {
        PdfObject::Reference(id) => match doc.resolve_object(*id) {
            Some(object) => {
                proof {
                    value_of_parts(*object);
                }
                match object {
                    PdfObject::Stream(stream) => if holds_jpeg_image(stream) {
                        Some(stream)
                    } else {
                        None
                    },
                    _ => None,
                }
            },
            None => None,
        },
        _ => {
            proof {
                value_of_parts(*value);
            }
            None
        },
    }
}

/// Looks up the dictionary stored under `key`, inline or one reference away.
fn get_dictionary<'a>(doc: &'a PdfDocument, dict: &'a PdfDictionary, key: &[u8]) -> (found: Option<
    &'a PdfDictionary,
>)
    ensures
        match found {
            Some(inner) => dictionary_entry(doc@, dict@, key@) == Some(inner@),
            None => dictionary_entry(doc@, dict@, key@) is None,
        },
{
    match dict.get(key) {
        Some(value) => doc.resolve_dictionary(value),
        None => None,
    }
}

/// Reads the dictionary of the first page.
fn get_first_page<'a>(doc: &'a PdfDocument, pages: &[ObjectId]) -> (found: Option<&'a PdfDictionary>)
    ensures
        match found {
            Some(page) => first_page(doc@, pages@) == Some(page@),
            None => first_page(doc@, pages@) is None,
        },
{
    if pages.len() == 0 {
        return None;
    }
    match doc.resolve_object(pages[0]) {
        Some(object) => {
            proof {
                value_of_parts(*object);
            }
            match object {
                PdfObject::Dictionary(page) => Some(page),
                _ => None,
            }
        },
        None => None,
    }
}

/// Finds the cover of a document whose pages have the numbers `pages`, in
/// page order: the first XObject of the first page that is a JPEG image,
/// handed out as stored. Images in any other encoding are passed over. Where
/// there is no such image, the error names the step at which the search
/// ended; a document without pages, or whose first page is no dictionary,
/// ends it at the first step.
pub fn cover(doc: &PdfDocument, pages: &[ObjectId]) -> (found: Result<CoverImage, ExtractError>)
    ensures
        match found {
            Ok(image) => cover_of(doc@, pages@) == Ok::<Seq<u8>, Missing>(image.bytes@)
                && image.mime@ == "image/jpeg"@,
            Err(error) => cover_of(doc@, pages@) is Err && error@ == ErrorView::NotFound(
                cover_of(doc@, pages@)->Err_0,
            ),
        },
{
    proof {
        reveal_strlit("Resources");
        reveal_strlit("XObject");
    }
    let page = match get_first_page(doc, pages) {
        Some(page) => page,
        None => { return Err(ExtractError::NotFound(Missing::Pages)); },
    };
    let resources = match get_dictionary(doc, page, ascii_bytes("Resources")) {
        Some(resources) => resources,
        None => { return Err(ExtractError::NotFound(Missing::Resources)); },
    };
    let xobjects = match get_dictionary(doc, resources, ascii_bytes("XObject")) {
        Some(xobjects) => xobjects,
        None => { return Err(ExtractError::NotFound(Missing::XObjects)); },
    };
    let mut at: usize = 0;
    assert(xobjects@.skip(0) =~= xobjects@);
    while at < xobjects.entries.len()
        invariant
            at <= xobjects.entries.len(),
            first_jpeg(doc@, xobjects@) == first_jpeg(doc@, xobjects@.skip(at as int)),
            cover_of(doc@, pages@) == match first_jpeg(doc@, xobjects@) {
                None => Err::<Seq<u8>, Missing>(Missing::JpegImage),
                Some(stream) => Ok(stream.content),
            },
        decreases xobjects.entries.len() - at,
    {
        assert(xobjects@.skip(at as int)[0] == xobjects@[at as int]);
        match find_jpeg_behind(doc, &xobjects.entries[at].1) {
            Some(stream) => {
                let bytes = stream.content.clone();
                assert(bytes@ =~= stream.content@);
                return Ok(CoverImage { bytes, mime: String::from_str("image/jpeg") });
            },
            None => {},
        }
        assert(xobjects@.skip(at as int).skip(1) =~= xobjects@.skip(at + 1));
        at = at + 1;
    }
    Err(ExtractError::NotFound(Missing::JpegImage))
}

} // verus!
