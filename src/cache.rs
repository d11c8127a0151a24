use crate::model::FetchError;
use crate::remote::{get_latest_checksum, latest_checksum, JSON_SUFFIX};
use crate::render::text_of;
use vstd::prelude::*;

verus! {

/// The file that holds the index of all translations.
pub const INDEX_FILE: &'static str = "translations.json";

/// The suffix of the file that holds a translation's checksum.
pub const CHECKSUM_SUFFIX: &'static str = "-checksum.json";

/// The files that `entries` describe; a later entry for a name replaces an
/// earlier one.
pub open spec fn files_map(entries: Seq<(String, String)>) -> Map<Seq<char>, Seq<char>>
    decreases entries.len(),
{
    if entries.len() == 0 {
        Map::empty()
    } else {
        files_map(entries.drop_last()).insert(entries.last().0@, entries.last().1@)
    }
}

/// A directory of cached files in memory: each file has a name and text.
pub struct CacheDir {
    files: Vec<(String, String)>,
}

impl View for CacheDir {
    type V = Map<Seq<char>, Seq<char>>;

    closed spec fn view(&self) -> Map<Seq<char>, Seq<char>> {
        files_map(self.files@)
    }
}

/// Writing over the last entry named `name` changes the files as a write does.
proof fn lemma_files_map_update(entries: Seq<(String, String)>, i: int, e: (String, String))
    requires
        0 <= i < entries.len(),
        entries[i].0@ == e.0@,
        forall|j: int| i < j < entries.len() ==> entries[j].0@ != e.0@,
    ensures
        files_map(entries.update(i, e)) == files_map(entries).insert(e.0@, e.1@),
    decreases entries.len(),
{
    let u = entries.update(i, e);
    if i == entries.len() - 1 {
        assert(u.drop_last() =~= entries.drop_last());
        assert(files_map(u) =~= files_map(entries).insert(e.0@, e.1@));
    } else {
        assert(u.drop_last() =~= entries.drop_last().update(i, e));
        lemma_files_map_update(entries.drop_last(), i, e);
        assert(files_map(u) =~= files_map(entries).insert(e.0@, e.1@));
    }
}

impl CacheDir {
    /// An empty directory.
    pub fn new() -> (r: CacheDir)
        ensures
            r@ == Map::<Seq<char>, Seq<char>>::empty(),
    {
        CacheDir { files: Vec::new() }
    }

    /// The position of the last entry named `name`.
    fn position(&self, name: &String) -> (r: Option<usize>)
        ensures
            match r {
                Some(i) => i < self.files@.len() && self.files@[i as int].0@ == name@
                    && forall|j: int| i < j < self.files@.len() ==> self.files@[j].0@ != name@,
                None => forall|j: int| 0 <= j < self.files@.len() ==> self.files@[j].0@ != name@,
            },
    {
        let mut i: usize = self.files.len();
        while i > 0
            invariant
                i <= self.files@.len(),
                forall|j: int| i <= j < self.files@.len() ==> self.files@[j].0@ != name@,
            decreases i,
        {
            if self.files[i - 1].0 == *name {
                return Some(i - 1);
            }
            i = i - 1;
        }
        None
    }

    /// The text of the file `name`, if there is one.
    pub fn read(&self, name: &str) -> (r: Option<String>)
        ensures
            match r {
                Some(t) => self@.contains_key(name@) && t@ == self@[name@],
                None => !self@.contains_key(name@),
            },
    {
        let key = String::from_str(name);
        let ghost s = self.files@;
        let mut i: usize = self.files.len();
        assert(s.take(i as int) =~= s);
        while i > 0
            invariant
                i <= s.len(),
                s == self.files@,
                key@ == name@,
                forall|j: int| i <= j < s.len() ==> s[j].0@ != name@,
                files_map(s).contains_key(name@) == files_map(s.take(i as int)).contains_key(name@),
                files_map(s).contains_key(name@) ==> files_map(s)[name@] == files_map(s.take(i as int))[name@],
            decreases i,
        {
            assert(s.take(i as int).drop_last() =~= s.take(i - 1));
            if self.files[i - 1].0 == key {
                return Some(self.files[i - 1].1.clone());
            }
            i = i - 1;
        }
        None
    }

    /// Whether the file `name` exists.
    pub fn contains(&self, name: &str) -> (r: bool)
        ensures
            r == self@.contains_key(name@),
    {
        self.read(name).is_some()
    }

    /// Writes `content` to the file `name`, replacing what it held.
    pub fn write(&mut self, name: String, content: String)
        ensures
            final(self)@ == old(self)@.insert(name@, content@),
    {
        match self.position(&name) {
            Some(i) => {
                proof {
                    lemma_files_map_update(self.files@, i as int, (name, content));
                }
                self.files.set(i, (name, content));
            }
            None => {
                self.files.push((name, content));
                assert(self.files@.drop_last() =~= old(self).files@);
            }
        }
    }

    /// The files as `(name, text)` pairs, in the order of their first write.
    pub fn files(&self) -> (r: &Vec<(String, String)>)
        ensures
            files_map(r@) == self@,
    {
        &self.files
    }
}

/// The name of the document file of translation `abbrev`.
pub open spec fn document_name(abbrev: Seq<char>) -> Seq<char> {
    abbrev + JSON_SUFFIX@
}

/// The name of the checksum file of translation `abbrev`.
pub open spec fn checksum_name(abbrev: Seq<char>) -> Seq<char> {
    abbrev + CHECKSUM_SUFFIX@
}

/// The checksum recorded for `abbrev`; a missing file counts as empty.
pub open spec fn stored_checksum(dir: Map<Seq<char>, Seq<char>>, abbrev: Seq<char>) -> Seq<char> {
    if dir.contains_key(checksum_name(abbrev)) {
        dir[checksum_name(abbrev)]
    } else {
        Seq::empty()
    }
}

/// Whether the cached copy of `abbrev` is stale against checksum `latest`:
/// its document is missing, or its recorded checksum differs.
pub open spec fn is_stale(dir: Map<Seq<char>, Seq<char>>, abbrev: Seq<char>, latest: Seq<char>) -> bool {
    !dir.contains_key(document_name(abbrev)) || stored_checksum(dir, abbrev) != latest
}

/// What `check_update` gives, for the body of the checksum endpoint's response.
pub open spec fn update_check(dir: Map<Seq<char>, Seq<char>>, abbrev: Seq<char>, body: Seq<char>) -> Result<bool, FetchError> {
    match latest_checksum(body, abbrev) {
        Ok(c) => Ok(is_stale(dir, abbrev, c)),
        Err(e) => Err(e),
    }
}

/// The files after translation `abbrev` was stored with `document` and `checksum`.
pub open spec fn after_download(
    dir: Map<Seq<char>, Seq<char>>,
    abbrev: Seq<char>,
    document: Seq<char>,
    checksum: Seq<char>,
) -> Map<Seq<char>, Seq<char>> {
    dir.insert(checksum_name(abbrev), checksum).insert(document_name(abbrev), document)
}

/// The files after `download_translation`: unchanged where the checksum
/// could not be had.
pub open spec fn download_state(
    dir: Map<Seq<char>, Seq<char>>,
    abbrev: Seq<char>,
    document: Seq<char>,
    body: Seq<char>,
) -> Map<Seq<char>, Seq<char>> {
    match latest_checksum(body, abbrev) {
        Ok(c) => after_download(dir, abbrev, document, c),
        Err(_) => dir,
    }
}

/// What reading the document of `abbrev` gives.
pub open spec fn document_read(dir: Map<Seq<char>, Seq<char>>, abbrev: Seq<char>) -> Result<Seq<char>, FetchError> {
    if dir.contains_key(document_name(abbrev)) {
        Ok(dir[document_name(abbrev)])
    } else {
        Err(FetchError::LocalIo)
    }
}

/// The name of the document file of translation `abbrev`.
pub fn document_file_name(abbrev: &str) -> (r: String)
    ensures
        r@ == document_name(abbrev@),
{
    let mut name = String::from_str(abbrev);
    name.append(JSON_SUFFIX);
    name
}

/// The name of the checksum file of translation `abbrev`.
pub fn checksum_file_name(abbrev: &str) -> (r: String)
    ensures
        r@ == checksum_name(abbrev@),
{
    let mut name = String::from_str(abbrev);
    name.append(CHECKSUM_SUFFIX);
    name
}

/// Whether the cached copy of `abbrev` is stale against the remote checksum
/// `latest`. A missing document makes it stale before the checksum file is
/// looked at; a missing checksum file reads as empty.
pub fn needs_update(dir: &CacheDir, abbrev: &str, latest: &str) -> (r: bool)
    ensures
        r == is_stale(dir@, abbrev@, latest@),
{
    if !dir.contains(document_file_name(abbrev).as_str()) {
        return true;
    }
    let current = match dir.read(checksum_file_name(abbrev).as_str()) {
        Some(text) => text,
        None => String::new(),
    };
    let latest = String::from_str(latest);
    !(latest == current)
}

/// Whether the cached copy of `abbrev` is stale, given the body of the
/// checksum endpoint's response; fails as `get_latest_checksum` does.
pub fn check_update(dir: &CacheDir, abbrev: &str, checksum_body: &str) -> (r: Result<bool, FetchError>)
    ensures
        r == update_check(dir@, abbrev@, checksum_body@),
{
    let latest = match get_latest_checksum(checksum_body, abbrev) {
        Ok(c) => c,
        Err(e) => return Err(e),
    };
    Ok(needs_update(dir, abbrev, latest.as_str()))
}

/// Stores translation `abbrev`: first its checksum file, then its document.
pub fn store_translation(dir: &mut CacheDir, abbrev: &str, document: String, checksum: String)
    ensures
        final(dir)@ == after_download(old(dir)@, abbrev@, document@, checksum@),
{
    dir.write(checksum_file_name(abbrev), checksum);
    dir.write(document_file_name(abbrev), document);
}

/// Stores the fetched `document` of translation `abbrev` with the checksum
/// that the checksum endpoint's response gives for it. Where that fails,
/// nothing is written and the error is returned.
pub fn download_translation(dir: &mut CacheDir, abbrev: &str, document: String, checksum_body: &str) -> (r: Result<(), FetchError>)
    ensures
        final(dir)@ == download_state(old(dir)@, abbrev@, document@, checksum_body@),
        match latest_checksum(checksum_body@, abbrev@) {
            Ok(_) => r is Ok,
            Err(e) => r == Err::<(), FetchError>(e),
        },
{
    match get_latest_checksum(checksum_body, abbrev) {
        Ok(c) => {
            store_translation(dir, abbrev, document, c);
            Ok(())
        },
        Err(e) => Err(e),
    }
}

/// Replaces the cached index of translations with `index`.
pub fn save_index(dir: &mut CacheDir, index: String)
    ensures
        final(dir)@ == old(dir)@.insert(INDEX_FILE@, index@),
{
    dir.write(String::from_str(INDEX_FILE), index);
}

/// The cached document of translation `abbrev`, or `LocalIo` where there is none.
pub fn read_document(dir: &CacheDir, abbrev: &str) -> (r: Result<String, FetchError>)
    ensures
        text_of(r) == document_read(dir@, abbrev@),
{
    match dir.read(document_file_name(abbrev).as_str()) {
        Some(text) => Ok(text),
        None => Err(FetchError::LocalIo),
    }
}

} // verus!
