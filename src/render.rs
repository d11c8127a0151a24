use crate::model::{Chapter, FetchError, TranslationDocument, Verse};
use vstd::prelude::*;

verus! {

/// The character of a decimal digit.
pub open spec fn digit_char(d: nat) -> char {
    if d == 0 { '0' }
    else if d == 1 { '1' }
    else if d == 2 { '2' }
    else if d == 3 { '3' }
    else if d == 4 { '4' }
    else if d == 5 { '5' }
    else if d == 6 { '6' }
    else if d == 7 { '7' }
    else if d == 8 { '8' }
    else { '9' }
}

/// The decimal notation of `n`, without leading zeros.
pub open spec fn decimal(n: nat) -> Seq<char>
    decreases n,
{
    if n < 10 {
        seq![digit_char(n)]
    } else {
        decimal(n / 10) + seq![digit_char(n % 10)]
    }
}

/// One verse as a line of text: its number, a tab, its text and a newline.
pub open spec fn verse_line(v: Verse) -> Seq<char> {
    decimal(v.verse as nat) + seq!['\t'] + v.text@ + seq!['\n']
}

/// The lines of `verses`, concatenated in the order given.
pub open spec fn render_verses(verses: Seq<Verse>) -> Seq<char>
    decreases verses.len(),
{
    if verses.len() == 0 {
        Seq::empty()
    } else {
        render_verses(verses.drop_last()) + verse_line(verses.last())
    }
}

/// What `get_chapter` gives for a document and a pair of indices.
pub open spec fn chapter_text(doc: TranslationDocument, book: int, chapter: int) -> Result<Seq<char>, FetchError> {
    match doc.chapter_at(book, chapter) {
        Some(c) => Ok(render_verses(c.verses@)),
        None => Err(FetchError::OutOfRange),
    }
}

/// What `get_title` gives for a document and a pair of indices.
pub open spec fn chapter_title(doc: TranslationDocument, book: int, chapter: int) -> Result<Seq<char>, FetchError> {
    match doc.chapter_at(book, chapter) {
        Some(c) => Ok(c.name@),
        None => Err(FetchError::OutOfRange),
    }
}

/// The view of a string result.
pub open spec fn text_of(r: Result<String, FetchError>) -> Result<Seq<char>, FetchError> {
    match r {
        Ok(s) => Ok(s@),
        Err(e) => Err(e),
    }
}

fn digit_str(d: usize) -> (r: &'static str)
    requires
        d < 10,
    ensures
        r@ == seq![digit_char(d as nat)],
{
    proof {
        reveal_strlit("0");
        reveal_strlit("1");
        reveal_strlit("2");
        reveal_strlit("3");
        reveal_strlit("4");
        reveal_strlit("5");
        reveal_strlit("6");
        reveal_strlit("7");
        reveal_strlit("8");
        reveal_strlit("9");
    }
    if d == 0 { "0" }
    else if d == 1 { "1" }
    else if d == 2 { "2" }
    else if d == 3 { "3" }
    else if d == 4 { "4" }
    else if d == 5 { "5" }
    else if d == 6 { "6" }
    else if d == 7 { "7" }
    else if d == 8 { "8" }
    else { "9" }
}

/// Appends the decimal notation of `n` to `out`.
pub fn push_decimal(out: &mut String, n: usize)
    ensures
        final(out)@ == old(out)@ + decimal(n as nat),
    decreases n,
{
    if n >= 10 {
        push_decimal(out, n / 10);
        out.append(digit_str(n % 10));
        assert(final(out)@ =~= old(out)@ + decimal(n as nat));
    } else {
        out.append(digit_str(n));
    }
}

/// Appends the line of one verse to `out`.
pub fn push_verse_line(out: &mut String, v: &Verse)
    ensures
        final(out)@ == old(out)@ + verse_line(*v),
{
    proof {
        reveal_strlit("\t");
        reveal_strlit("\n");
    }
    push_decimal(out, v.verse);
    out.append("\t");
    out.append(v.text.as_str());
    out.append("\n");
    assert(final(out)@ =~= old(out)@ + verse_line(*v));
}

/// The lines of all `verses`, in stored order: no sorting by verse number.
pub fn render_chapter(verses: &Vec<Verse>) -> (r: String)
    ensures
        r@ == render_verses(verses@),
{
    let mut text = String::new();
    let mut i: usize = 0;
    while i < verses.len()
        invariant
            i <= verses@.len(),
            text@ == render_verses(verses@.take(i as int)),
        decreases verses@.len() - i,
    {
        push_verse_line(&mut text, &verses[i]);
        assert(verses@.take(i + 1).drop_last() =~= verses@.take(i as int));
        i = i + 1;
    }
    assert(verses@.take(i as int) =~= verses@);
    text
}

fn chapter_ref(doc: &TranslationDocument, book: usize, chapter: usize) -> (r: Option<&Chapter>)
    ensures
        match r {
            Some(c) => doc.chapter_at(book as int, chapter as int) == Some(*c),
            None => doc.chapter_at(book as int, chapter as int) is None,
        },
{
    if book < doc.books.len() && chapter < doc.books[book].chapters.len() {
        Some(&doc.books[book].chapters[chapter])
    } else {
        None
    }
}

/// The verses of `books[book].chapters[chapter]`, one line each, or
/// `OutOfRange` where either index lies outside the document.
pub fn get_chapter(doc: &TranslationDocument, book: usize, chapter: usize) -> (r: Result<String, FetchError>)
    ensures
        text_of(r) == chapter_text(*doc, book as int, chapter as int),
{
    match chapter_ref(doc, book, chapter) {
        Some(c) => Ok(render_chapter(&c.verses)),
        None => Err(FetchError::OutOfRange),
    }
}

/// The display name of `books[book].chapters[chapter]`, or `OutOfRange`
/// where either index lies outside the document.
pub fn get_title(doc: &TranslationDocument, book: usize, chapter: usize) -> (r: Result<String, FetchError>)
    ensures
        text_of(r) == chapter_title(*doc, book as int, chapter as int),
{
    match chapter_ref(doc, book, chapter) {
        Some(c) => Ok(c.name.clone()),
        None => Err(FetchError::OutOfRange),
    }
}

} // verus!
