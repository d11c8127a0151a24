use crate::cache::{
    after_download, checksum_name, document_name, document_read, download_state, is_stale,
    update_check,
};
use crate::model::{FetchError, TranslationDocument};
use crate::remote::latest_checksum;
use crate::render::{chapter_text, chapter_title, text_of};
use vstd::prelude::*;

verus! {

/// The document file and the checksum file of one translation never share a name.
pub proof fn lemma_file_names_differ(abbrev: Seq<char>)
    ensures
        document_name(abbrev) != checksum_name(abbrev),
{
    reveal_strlit(".json");
    reveal_strlit("-checksum.json");
    assert(document_name(abbrev).len() != checksum_name(abbrev).len());
}

/// Before any document of `abbrev` is cached, the copy is stale whatever the
/// remote checksum is, and `check_update` fails only where the remote
/// checksum cannot be had.
pub proof fn law_missing_document_is_stale(
    dir: Map<Seq<char>, Seq<char>>,
    abbrev: Seq<char>,
    latest: Seq<char>,
    body: Seq<char>,
)
    requires
        !dir.contains_key(document_name(abbrev)),
    ensures
        is_stale(dir, abbrev, latest),
        latest_checksum(body, abbrev) is Ok ==> update_check(dir, abbrev, body) == Ok::<bool, FetchError>(true),
        latest_checksum(body, abbrev) is Err ==> update_check(dir, abbrev, body) is Err,
{
}

/// Right after a download of `abbrev` succeeded, `check_update` reports the
/// copy fresh as long as the remote checksum has not changed.
pub proof fn law_fresh_after_download(
    dir: Map<Seq<char>, Seq<char>>,
    abbrev: Seq<char>,
    document: Seq<char>,
    body: Seq<char>,
    later_body: Seq<char>,
)
    requires
        latest_checksum(body, abbrev) is Ok,
        latest_checksum(later_body, abbrev) == latest_checksum(body, abbrev),
    ensures
        update_check(download_state(dir, abbrev, document, body), abbrev, later_body)
            == Ok::<bool, FetchError>(false),
{
    lemma_file_names_differ(abbrev);
}

/// A document stored by a download reads back exactly as it was fetched.
pub proof fn law_document_round_trip(
    dir: Map<Seq<char>, Seq<char>>,
    abbrev: Seq<char>,
    document: Seq<char>,
    checksum: Seq<char>,
)
    ensures
        document_read(after_download(dir, abbrev, document, checksum), abbrev)
            == Ok::<Seq<char>, FetchError>(document),
        after_download(dir, abbrev, document, checksum)[checksum_name(abbrev)] == checksum,
{
    lemma_file_names_differ(abbrev);
}

/// Indices outside the document give `OutOfRange`, for the text and the
/// title alike, and never an empty result.
pub proof fn law_out_of_range(doc: TranslationDocument, book: int, chapter: int)
    requires
        !(0 <= book < doc.books@.len() && 0 <= chapter < doc.books@[book].chapters@.len()),
    ensures
        chapter_text(doc, book, chapter) == Err::<Seq<char>, FetchError>(FetchError::OutOfRange),
        chapter_title(doc, book, chapter) == Err::<Seq<char>, FetchError>(FetchError::OutOfRange),
{
}

/// Reading a chapter or a title twice from the same document gives the same
/// result both times.
pub proof fn law_reads_repeat(
    doc: TranslationDocument,
    book: int,
    chapter: int,
    first: Result<String, FetchError>,
    second: Result<String, FetchError>,
)
    ensures
        text_of(first) == chapter_text(doc, book, chapter) && text_of(second) == chapter_text(doc, book, chapter)
            ==> text_of(first) == text_of(second),
        text_of(first) == chapter_title(doc, book, chapter) && text_of(second) == chapter_title(doc, book, chapter)
            ==> text_of(first) == text_of(second),
{
}

} // verus!
