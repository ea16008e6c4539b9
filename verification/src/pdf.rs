//! PDF documents: the object model, and the rules that find title, author
//! and cover in it. The host parses the file and hands the document in.

pub mod extract;
pub mod model;
