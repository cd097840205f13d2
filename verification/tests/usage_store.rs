use mxks::layout::Lang;
use mxks::usage::WordUsage;
use mxks::usage_store::{validate_file, UsageError, UsageStore, USAGE_FILE_VERSION};

#[test]
fn valid_file_is_accepted() {
    let mut u = WordUsage::default();
    u.set_count("work", Lang::En, 3);
    u.set_count("привет", Lang::Ru, 1);
    let ok = validate_file(USAGE_FILE_VERSION, u).unwrap();
    assert_eq!(ok.count("work", Lang::En), 3);
}

#[test]
fn invalid_files_report_the_first_problem() {
    assert_eq!(validate_file(2, WordUsage::default()).unwrap_err(), UsageError::UnsupportedVersion(2));
    let mut zero = WordUsage::default();
    zero.set_count("work", Lang::En, 0);
    assert_eq!(validate_file(1, zero).unwrap_err(), UsageError::ZeroCount("work".to_string()));
    let mut upper = WordUsage::default();
    upper.set_count("Work", Lang::En, 1);
    assert_eq!(validate_file(1, upper).unwrap_err(), UsageError::NotLowercase("Work".to_string()));
    let mut unknown = WordUsage::default();
    unknown.set_count("zzxqwk", Lang::En, 1);
    unknown.set_count("ноль", Lang::Ru, 0);
    assert_eq!(validate_file(1, unknown).unwrap_err(), UsageError::NotInDictionary("zzxqwk".to_string()));
    let mut wrong_lang = WordUsage::default();
    wrong_lang.set_count("work", Lang::Ru, 1);
    assert_eq!(validate_file(1, wrong_lang).unwrap_err(), UsageError::NotInDictionary("work".to_string()));
}

#[test]
fn memory_store_counts_and_has_no_files() {
    let mut store = UsageStore::memory(WordUsage::default());
    assert_eq!(store.record_accept("work", Lang::En), 1);
    assert_eq!(store.record_accept("work", Lang::En), 2);
    assert_eq!(store.usage().count("work", Lang::En), 2);
    assert!(store.canonical_path().is_none());
    assert_eq!(store.export_path(), Err(UsageError::Unavailable));
    assert_eq!(store.import_paths(), Err(UsageError::Unavailable));
}

#[test]
fn import_merges_without_touching_memory_until_replaced() {
    let mut local = WordUsage::default();
    local.set_count("work", Lang::En, 5);
    let mut store =
        UsageStore::from_optional_paths(local, Some("c.toml".to_string()), Some("t.toml".to_string()));
    assert_eq!(store.import_paths(), Ok(("t.toml".to_string(), "c.toml".to_string())));
    assert_eq!(store.export_path(), Ok("t.toml".to_string()));
    let mut imported = WordUsage::default();
    imported.set_count("work", Lang::En, 2);
    imported.set_count("the", Lang::En, 4);
    let (merged, changed) = store.merged_with(&imported);
    assert_eq!(changed, 1);
    assert_eq!(store.usage().count("the", Lang::En), 0);
    store.replace(merged);
    assert_eq!(store.usage().count("the", Lang::En), 4);
    assert_eq!(store.usage().count("work", Lang::En), 5);
}
