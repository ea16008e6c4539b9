//! Title, author and cover image of EPUB and PDF books.
//!
//! The crate holds the rules of the extraction: how a PDF text string is
//! decoded, which object of a PDF page or which resource of an EPUB package
//! counts as the cover, under which key a cover is cached, and in which
//! order a request consults the file system, the cache and the document.
//! Reading files, parsing PDF files and opening EPUB packages is left to
//! the host program, which hands the library plain values and carries out
//! the steps it names.

pub mod book;
pub mod cache;
pub mod chars;
pub mod encoding;
pub mod epub;
pub mod error;
pub mod kind;
pub mod pdf;
pub mod request;
pub mod text;
