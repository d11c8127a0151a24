use vstd::prelude::*;

verus! {

/// One verse of a chapter: its number and its text.
pub struct Verse {
    pub verse: usize,
    pub text: String,
}

/// One chapter of a book: its display name and its verses in stored order.
pub struct Chapter {
    pub name: String,
    pub verses: Vec<Verse>,
}

/// One book of a translation.
pub struct Book {
    pub chapters: Vec<Chapter>,
}

/// A whole translation, as its document file holds it.
pub struct TranslationDocument {
    pub books: Vec<Book>,
}

/// The ways in which an operation of the cache can fail.
#[derive(PartialEq, Eq, Structural, Debug, Clone, Copy)]
pub enum FetchError {
    /// The transport failed before a response arrived.
    Network,
    /// A remote response was not the JSON that was expected.
    RemoteData,
    /// The remote checksum map has no entry for the abbreviation asked for.
    NotFound,
    /// A local file is missing, unreadable or unwritable.
    LocalIo,
    /// A cached document is not well-formed.
    Parse,
    /// A book or chapter index lies outside the document.
    OutOfRange,
}

impl TranslationDocument {
    /// The chapter at `books[book].chapters[chapter]`, if both indices are in bounds.
    pub open spec fn chapter_at(&self, book: int, chapter: int) -> Option<Chapter> {
        if 0 <= book < self.books@.len() && 0 <= chapter < self.books@[book].chapters@.len() {
            Some(self.books@[book].chapters@[chapter])
        } else {
            None
        }
    }
}

} // verus!
