use std::path::PathBuf;

use ugh::cache::{CacheEntry, CacheFile, CacheRead, TicketDraftCache, CACHE_LIMIT};
use ugh::domain::branch::BranchCategory;
use ugh::domain::ticket::TicketDraft;
use ugh::error::AppError;

fn draft(title: &str) -> TicketDraft {
    TicketDraft {
        title: title.to_string(),
        description: format!("about {title}"),
        branch_category: BranchCategory::Fix,
        branch_summary: "some-slug".to_string(),
    }
}

fn empty_cache() -> TicketDraftCache {
    TicketDraftCache::from_file(
        PathBuf::from("/tmp/ugh/draft_cache.json"),
        CacheFile { entries: vec![] },
    )
}

fn entry(key: &str, category: &str) -> CacheEntry {
    CacheEntry {
        key: key.to_string(),
        title: format!("title of {key}"),
        description: "d".to_string(),
        branch_category: category.to_string(),
        branch_summary: "s".to_string(),
    }
}

#[test]
fn keeps_the_newest_thirty_two_of_forty() {
    let mut cache = empty_cache();
    for i in 0..40 {
        cache.insert(format!("key-{i}"), &draft(&format!("draft {i}")));
    }
    assert_eq!(CACHE_LIMIT, 32);
    assert_eq!(cache.entries().len(), 32);
    for i in 0..8 {
        assert!(cache.get(&format!("key-{i}")).is_none());
    }
    for i in 8..40 {
        let found = cache.get(&format!("key-{i}")).expect("a recent key is missing");
        assert_eq!(found.title, format!("draft {i}"));
    }
    let keys: Vec<String> = cache.entries().iter().map(|e| e.key.clone()).collect();
    let expected: Vec<String> = (8..40).map(|i| format!("key-{i}")).collect();
    assert_eq!(keys, expected);
}

#[test]
fn inserting_a_key_again_overwrites() {
    let mut cache = empty_cache();
    cache.insert("k".to_string(), &draft("first"));
    cache.insert("other".to_string(), &draft("other"));
    cache.insert("k".to_string(), &draft("second"));
    assert_eq!(cache.entries().len(), 2);
    assert_eq!(cache.get("k").expect("the key is missing").title, "second");
    assert_eq!(cache.entries().iter().filter(|e| e.key == "k").count(), 1);
    assert_eq!(cache.entries()[1].key, "k");
    assert_eq!(cache.entries()[0].key, "other");
}

#[test]
fn overwriting_does_not_count_twice_toward_the_bound() {
    let mut cache = empty_cache();
    for i in 0..32 {
        cache.insert(format!("key-{i}"), &draft("x"));
    }
    cache.insert("key-31".to_string(), &draft("again"));
    assert_eq!(cache.entries().len(), 32);
    assert!(cache.get("key-0").is_some());
    assert_eq!(cache.get("key-31").expect("missing").title, "again");
}

#[test]
fn reading_does_not_renew_an_entry() {
    let mut cache = empty_cache();
    for i in 0..32 {
        cache.insert(format!("key-{i}"), &draft("x"));
    }
    assert!(cache.get("key-0").is_some());
    cache.insert("key-32".to_string(), &draft("y"));
    assert!(cache.get("key-0").is_none());
    assert!(cache.get("key-1").is_some());
}

#[test]
fn stores_and_reads_all_fields() {
    let mut cache = empty_cache();
    let stored = TicketDraft {
        title: "T".to_string(),
        description: "D".to_string(),
        branch_category: BranchCategory::Quality,
        branch_summary: "slug".to_string(),
    };
    cache.insert("k".to_string(), &stored);
    assert_eq!(cache.entries()[0].branch_category, "quality");
    let found = cache.get("k").expect("missing");
    assert_eq!(found.title, "T");
    assert_eq!(found.description, "D");
    assert_eq!(found.branch_category, BranchCategory::Quality);
    assert_eq!(found.branch_summary, "slug");
    assert!(cache.get("K").is_none());
    assert!(cache.get("").is_none());
}

#[test]
fn unknown_stored_category_reads_as_feature() {
    let cache = TicketDraftCache::from_file(
        PathBuf::from("cache.json"),
        CacheFile {
            entries: vec![entry("a", "experiment"), entry("b", " FIX "), entry("a", "fix")],
        },
    );
    assert_eq!(cache.get("a").expect("missing").branch_category, BranchCategory::Feature);
    assert_eq!(cache.get("b").expect("missing").branch_category, BranchCategory::Fix);
    assert_eq!(cache.file_path(), &PathBuf::from("cache.json"));
}

#[test]
fn entry_becomes_a_draft() {
    let stored = entry("a", "whatever");
    let draft = stored.to_draft(Some(BranchCategory::Quality));
    assert_eq!(draft.title, "title of a");
    assert_eq!(draft.description, "d");
    assert_eq!(draft.branch_summary, "s");
    assert_eq!(draft.branch_category, BranchCategory::Quality);
    assert_eq!(stored.to_draft(None).branch_category, BranchCategory::Feature);
}

#[test]
fn insert_keeps_the_place_of_the_file() {
    let mut cache = empty_cache();
    cache.insert("k".to_string(), &draft("x"));
    assert_eq!(cache.file_path(), &PathBuf::from("/tmp/ugh/draft_cache.json"));
}

#[test]
fn oversized_file_is_trimmed_on_insert() {
    let entries = (0..50).map(|i| entry(&format!("old-{i}"), "fix")).collect();
    let mut cache = TicketDraftCache::from_file(PathBuf::from("c"), CacheFile { entries });
    assert_eq!(cache.entries().len(), 50);
    cache.insert("new".to_string(), &draft("n"));
    assert_eq!(cache.entries().len(), 32);
    assert_eq!(cache.entries()[31].key, "new");
    assert_eq!(cache.entries()[0].key, "old-19");
}

#[test]
fn key_is_deterministic_and_sensitive() {
    let key = TicketDraftCache::compute_key("Fix login bug", 3, Some("TCK"));
    assert_eq!(key, TicketDraftCache::compute_key("Fix login bug", 3, Some("TCK")));
    assert_ne!(key, TicketDraftCache::compute_key("Fix login bug!", 3, Some("TCK")));
    assert_ne!(key, TicketDraftCache::compute_key("Fix login bug", 4, Some("TCK")));
    assert_ne!(key, TicketDraftCache::compute_key("Fix login bug", 3, Some("TCX")));
    assert_ne!(key, TicketDraftCache::compute_key("Fix login bug", 3, None));
    assert_eq!(key.len(), 64);
    assert!(key.chars().all(|c| c.is_ascii_digit() || ('a'..='f').contains(&c)));
}

#[test]
fn key_is_the_blake3_hash_of_the_parts() {
    let mut hasher = blake3::Hasher::new();
    hasher.update("Fix lögin".as_bytes());
    hasher.update(17usize.to_string().as_bytes());
    hasher.update("TCK".as_bytes());
    let expected = hasher.finalize().to_hex().to_string();
    assert_eq!(TicketDraftCache::compute_key("Fix lögin", 17, Some("TCK")), expected);
    assert_eq!(
        TicketDraftCache::compute_key("", 0, None),
        blake3::hash(b"0").to_hex().to_string()
    );
}

#[test]
fn key_material_is_the_plain_concatenation() {
    assert_eq!(
        TicketDraftCache::key_material("Fix login bug", 3, Some("TCK")),
        "Fix login bug3TCK"
    );
    assert_eq!(TicketDraftCache::key_material("", 0, None), "0");
    assert_eq!(
        TicketDraftCache::key_material("a1", 2, None),
        TicketDraftCache::key_material("a", 12, Some(""))
    );
}

#[test]
fn missing_file_is_an_empty_cache() {
    let cache = match TicketDraftCache::from_read(PathBuf::from("c"), CacheRead::Missing) {
        Ok(cache) => cache,
        Err(_) => panic!("a missing file was reported as an error"),
    };
    assert!(cache.entries().is_empty());
}

#[test]
fn file_contents_become_the_cache() {
    let file = CacheFile {
        entries: vec![entry("a", "fix")],
    };
    let cache = match TicketDraftCache::from_read(PathBuf::from("c"), CacheRead::Contents(file)) {
        Ok(cache) => cache,
        Err(_) => panic!("a readable file was reported as an error"),
    };
    assert_eq!(cache.entries().len(), 1);
    assert_eq!(cache.get("a").expect("missing").title, "title of a");
}

#[test]
fn corrupt_file_is_a_configuration_error() {
    let read = CacheRead::Corrupt("expected value at line 1 column 1".to_string());
    match TicketDraftCache::from_read(PathBuf::from("c"), read) {
        Err(AppError::Configuration(message)) => assert_eq!(
            message,
            "invalid cache file: expected value at line 1 column 1"
        ),
        _ => panic!("a corrupt file was not reported as a configuration error"),
    }
}

#[test]
fn failed_read_is_an_io_error() {
    let error = std::io::Error::new(std::io::ErrorKind::PermissionDenied, "denied");
    match TicketDraftCache::from_read(PathBuf::from("c"), CacheRead::Failed(error)) {
        Err(AppError::Io(error)) => {
            assert_eq!(error.kind(), std::io::ErrorKind::PermissionDenied)
        }
        _ => panic!("a failed read was not reported as an I/O error"),
    }
}

#[test]
fn board_without_a_name_hashes_like_no_board() {
    assert_eq!(
        TicketDraftCache::compute_key("x", 1, None),
        TicketDraftCache::compute_key("x", 1, Some(""))
    );
}

#[test]
fn failed_write_is_a_configuration_error() {
    match TicketDraftCache::write_failure("key must be a string") {
        AppError::Configuration(message) => {
            assert_eq!(message, "failed to write cache: key must be a string")
        }
        _ => panic!("not a configuration error"),
    }
}
