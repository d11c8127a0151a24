use crate::model::FetchError;
use crate::render::text_of;
use vstd::prelude::*;

verus! {

/// The root under which the remote API serves its documents.
pub const API_BASE: &'static str = "https://api.getbible.net/v2/";

/// The endpoint that serves the index of all translations.
pub const INDEX_URL: &'static str = "https://api.getbible.net/v2/translations.json";

/// The endpoint that serves the map from abbreviation to checksum.
pub const CHECKSUM_URL: &'static str = "https://api.getbible.net/v2/checksum.json";

/// The suffix of every translation document, remote and local.
pub const JSON_SUFFIX: &'static str = ".json";

#[verifier::external_type_specification]
#[verifier::external_body]
pub struct ExJsonError(serde_json::Error);

/// The entries of a JSON object whose values are all strings, sorted by key,
/// or `None` where `body` is not such an object.
pub uninterp spec fn json_string_map(body: Seq<char>) -> Option<Seq<(Seq<char>, Seq<char>)>>;

/// The views of a list of string pairs.
pub open spec fn entries_view(es: Seq<(String, String)>) -> Seq<(Seq<char>, Seq<char>)> {
    es.map_values(|e: (String, String)| (e.0@, e.1@))
}

/// Relies on `serde_json::from_str` decoding `body` into a
/// `BTreeMap<String, String>`, or failing where `body` is no JSON object of
/// strings; the map's entries are then taken out in its own order.
#[verifier::external_body]
fn decode_string_map(body: &str) -> (r: Result<Vec<(String, String)>, serde_json::Error>)
    ensures
        match r {
            Ok(es) => json_string_map(body@) == Some(entries_view(es@)),
            Err(_) => json_string_map(body@) is None,
        },
{
    match serde_json::from_str::<std::collections::BTreeMap<String, String>>(body) {
        Ok(m) => Ok(m.into_iter().collect()),
        Err(e) => Err(e),
    }
}

/// The value of the first entry whose key is `key`.
pub open spec fn lookup(es: Seq<(Seq<char>, Seq<char>)>, key: Seq<char>) -> Option<Seq<char>>
    decreases es.len(),
{
    if es.len() == 0 {
        None
    } else if es[0].0 == key {
        Some(es[0].1)
    } else {
        lookup(es.drop_first(), key)
    }
}

/// The latest checksum of translation `abbrev`, given the body of the
/// checksum endpoint's response.
pub open spec fn latest_checksum(body: Seq<char>, abbrev: Seq<char>) -> Result<Seq<char>, FetchError> {
    match json_string_map(body) {
        None => Err(FetchError::RemoteData),
        Some(es) => match lookup(es, abbrev) {
            None => Err(FetchError::NotFound),
            Some(c) => Ok(c),
        },
    }
}

/// The view of an optional string.
pub open spec fn option_text(r: Option<String>) -> Option<Seq<char>> {
    match r {
        Some(s) => Some(s@),
        None => None,
    }
}

/// The address of the document of translation `abbrev`.
pub fn translation_url(abbrev: &str) -> (r: String)
    ensures
        r@ == API_BASE@ + abbrev@ + JSON_SUFFIX@,
{
    let mut url = String::from_str(API_BASE);
    url.append(abbrev);
    url.append(JSON_SUFFIX);
    url
}

/// The checksum that `entries` give for `abbrev`, if any.
pub fn lookup_checksum(entries: &Vec<(String, String)>, abbrev: &str) -> (r: Option<String>)
    ensures
        option_text(r) == lookup(entries_view(entries@), abbrev@),
{
    let key = String::from_str(abbrev);
    let ghost es = entries_view(entries@);
    assert(es.subrange(0, es.len() as int) =~= es);
    let mut i: usize = 0;
    while i < entries.len()
        invariant
            i <= entries@.len(),
            es == entries_view(entries@),
            key@ == abbrev@,
            lookup(es, abbrev@) == lookup(es.subrange(i as int, es.len() as int), abbrev@),
        decreases entries@.len() - i,
    {
        let ghost rest = es.subrange(i as int, es.len() as int);
        assert(rest[0] == es[i as int]);
        if entries[i].0 == key {
            return Some(entries[i].1.clone());
        }
        assert(rest.drop_first() =~= es.subrange(i + 1, es.len() as int));
        i = i + 1;
    }
    None
}

/// The checksum of translation `abbrev` in the body of a response of the
/// checksum endpoint: `RemoteData` where the body is no map of strings,
/// `NotFound` where it has no entry for `abbrev`.
pub fn get_latest_checksum(body: &str, abbrev: &str) -> (r: Result<String, FetchError>)
    ensures
        text_of(r) == latest_checksum(body@, abbrev@),
{
    match decode_string_map(body) {
        Err(_) => Err(FetchError::RemoteData),
        Ok(entries) => match lookup_checksum(&entries, abbrev) {
            Some(c) => Ok(c),
            None => Err(FetchError::NotFound),
        },
    }
}

} // verus!
