use openbible::cache::{
    check_update, checksum_file_name, document_file_name, download_translation, needs_update,
    read_document, save_index, store_translation, CacheDir, INDEX_FILE,
};
use openbible::model::FetchError;
use openbible::remote::{get_latest_checksum, lookup_checksum, translation_url, CHECKSUM_URL, INDEX_URL};

const KJV_BODY: &str = "{\"kjv\": \"abc123\"}";

#[test]
fn first_run_check_download_check() {
    let mut dir = CacheDir::new();
    assert_eq!(check_update(&dir, "kjv", KJV_BODY), Ok(true));
    let document = "{\"books\": []}".to_string();
    assert_eq!(download_translation(&mut dir, "kjv", document.clone(), KJV_BODY), Ok(()));
    assert_eq!(dir.read("kjv.json"), Some(document));
    assert_eq!(dir.read("kjv-checksum.json"), Some("abc123".to_string()));
    assert_eq!(check_update(&dir, "kjv", KJV_BODY), Ok(false));
}

#[test]
fn missing_document_is_stale_for_any_checksum() {
    let mut dir = CacheDir::new();
    dir.write("kjv-checksum.json".to_string(), "abc123".to_string());
    for body in ["{\"kjv\": \"abc123\"}", "{\"kjv\": \"\"}", "{\"kjv\": \"zzz\", \"web\": \"1\"}"] {
        assert_eq!(check_update(&dir, "kjv", body), Ok(true));
    }
    assert!(needs_update(&dir, "kjv", "abc123"));
}

#[test]
fn fresh_until_remote_changes() {
    let mut dir = CacheDir::new();
    let body = "{\"schlachter\": \"v1\", \"kjv\": \"k\"}";
    assert_eq!(download_translation(&mut dir, "schlachter", "doc".to_string(), body), Ok(()));
    assert_eq!(check_update(&dir, "schlachter", "{\"schlachter\": \"v1\"}"), Ok(false));
    assert_eq!(check_update(&dir, "schlachter", "{\"schlachter\": \"v2\"}"), Ok(true));
    assert_eq!(check_update(&dir, "kjv", body), Ok(true));
}

#[test]
fn missing_checksum_file_reads_as_empty() {
    let mut dir = CacheDir::new();
    dir.write("kjv.json".to_string(), "doc".to_string());
    assert!(needs_update(&dir, "kjv", "abc123"));
    assert!(!needs_update(&dir, "kjv", ""));
}

#[test]
fn download_overwrites_earlier_copy() {
    let mut dir = CacheDir::new();
    store_translation(&mut dir, "kjv", "old".to_string(), "c1".to_string());
    assert_eq!(download_translation(&mut dir, "kjv", "new".to_string(), "{\"kjv\": \"c2\"}"), Ok(()));
    assert_eq!(read_document(&dir, "kjv"), Ok("new".to_string()));
    assert_eq!(dir.read("kjv-checksum.json"), Some("c2".to_string()));
    assert_eq!(dir.files().len(), 2);
}

#[test]
fn failed_download_writes_nothing() {
    let mut dir = CacheDir::new();
    assert_eq!(download_translation(&mut dir, "kjv", "doc".to_string(), "{\"web\": \"1\"}"), Err(FetchError::NotFound));
    assert_eq!(download_translation(&mut dir, "kjv", "doc".to_string(), "not json"), Err(FetchError::RemoteData));
    assert!(!dir.contains("kjv.json"));
    assert!(!dir.contains("kjv-checksum.json"));
    assert_eq!(read_document(&dir, "kjv"), Err(FetchError::LocalIo));
}

#[test]
fn check_update_fails_without_remote_checksum() {
    let dir = CacheDir::new();
    assert_eq!(check_update(&dir, "kjv", "{}"), Err(FetchError::NotFound));
    assert_eq!(check_update(&dir, "kjv", "[1, 2]"), Err(FetchError::RemoteData));
}

#[test]
fn document_round_trip() {
    let mut dir = CacheDir::new();
    let document = "{\"books\":[{\"chapters\":[{\"name\":\"Psalm 118\",\"verses\":[{\"verse\":1,\"text\":\"O give thanks\"}]}]}]}";
    assert_eq!(download_translation(&mut dir, "kjv", document.to_string(), KJV_BODY), Ok(()));
    assert_eq!(read_document(&dir, "kjv"), Ok(document.to_string()));
}

#[test]
fn latest_checksum_lookup() {
    let body = "{\"kjv\": \"abc123\", \"schlachter\": \"f00d\"}";
    assert_eq!(get_latest_checksum(body, "schlachter"), Ok("f00d".to_string()));
    assert_eq!(get_latest_checksum(body, "kjv"), Ok("abc123".to_string()));
    assert_eq!(get_latest_checksum(body, "web"), Err(FetchError::NotFound));
    assert_eq!(get_latest_checksum(body, ""), Err(FetchError::NotFound));
    assert_eq!(get_latest_checksum("{\"kjv\": 5}", "kjv"), Err(FetchError::RemoteData));
    assert_eq!(get_latest_checksum("", "kjv"), Err(FetchError::RemoteData));
}

#[test]
fn lookup_in_decoded_entries() {
    let entries = vec![("akjv".to_string(), "1".to_string()), ("kjv".to_string(), "2".to_string())];
    assert_eq!(lookup_checksum(&entries, "kjv"), Some("2".to_string()));
    assert_eq!(lookup_checksum(&entries, "kj"), None);
    assert_eq!(lookup_checksum(&vec![], "kjv"), None);
}

#[test]
fn file_names_and_urls() {
    assert_eq!(document_file_name("schlachter"), "schlachter.json");
    assert_eq!(checksum_file_name("schlachter"), "schlachter-checksum.json");
    assert_eq!(translation_url("kjv"), "https://api.getbible.net/v2/kjv.json");
    assert_eq!(INDEX_URL, "https://api.getbible.net/v2/translations.json");
    assert_eq!(CHECKSUM_URL, "https://api.getbible.net/v2/checksum.json");
    assert_eq!(INDEX_FILE, "translations.json");
}

#[test]
fn index_is_replaced_on_save() {
    let mut dir = CacheDir::new();
    save_index(&mut dir, "[1]".to_string());
    save_index(&mut dir, "[2]".to_string());
    assert_eq!(dir.read("translations.json"), Some("[2]".to_string()));
    assert_eq!(dir.files().len(), 1);
}

#[test]
fn write_then_read() {
    let mut dir = CacheDir::new();
    assert_eq!(dir.read("a"), None);
    dir.write("a".to_string(), "1".to_string());
    dir.write("b".to_string(), "2".to_string());
    dir.write("a".to_string(), "3".to_string());
    assert_eq!(dir.read("a"), Some("3".to_string()));
    assert_eq!(dir.read("b"), Some("2".to_string()));
    assert!(dir.contains("b"));
    assert!(!dir.contains("c"));
}
