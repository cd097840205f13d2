use mxks::layout::Lang;
use mxks::usage::WordUsage;

#[test]
fn increment_is_language_specific_and_saturates() {
    let mut usage = WordUsage::default();
    assert_eq!(usage.increment("ready", Lang::En), 1);
    assert_eq!(usage.increment("ready", Lang::En), 2);
    assert_eq!(usage.count("ready", Lang::Ru), 0);

    usage.set_count("full", Lang::En, u32::MAX);
    assert_eq!(usage.increment("full", Lang::En), u32::MAX);
    assert_eq!(usage.count("full", Lang::En), u32::MAX);
}

#[test]
fn merge_max_changes_only_lower_counts_and_ignores_zero() {
    let mut local = WordUsage::default();
    local.set_count("ready", Lang::En, 5);
    local.set_count("готово", Lang::Ru, 2);

    let mut imported = WordUsage::default();
    imported.set_count("ready", Lang::En, 3);
    imported.set_count("work", Lang::En, 4);
    imported.set_count("готово", Lang::Ru, 7);
    imported.set_count("ноль", Lang::Ru, 0);

    assert_eq!(local.merge_max(&imported), 2);
    assert_eq!(local.count("ready", Lang::En), 5);
    assert_eq!(local.count("work", Lang::En), 4);
    assert_eq!(local.count("готово", Lang::Ru), 7);
    assert_eq!(local.count("ноль", Lang::Ru), 0);
    assert!(!local.contains("ноль", Lang::Ru));
}

#[test]
fn iteration_is_deterministic_by_language_then_word() {
    let mut usage = WordUsage::default();
    usage.increment("zebra", Lang::En);
    usage.increment("alpha", Lang::En);
    usage.increment("я", Lang::Ru);
    usage.increment("а", Lang::Ru);

    assert_eq!(
        usage.iter(),
        vec![
            (Lang::En, "alpha".to_string(), 1),
            (Lang::En, "zebra".to_string(), 1),
            (Lang::Ru, "а".to_string(), 1),
            (Lang::Ru, "я".to_string(), 1),
        ]
    );
}

#[test]
fn merge_is_idempotent_and_keeps_greater() {
    let mut a = WordUsage::default();
    a.set_count("work", Lang::En, 2);
    let mut b = WordUsage::default();
    b.set_count("work", Lang::En, 9);
    assert_eq!(a.merge_max(&b), 1);
    assert_eq!(a.merge_max(&b), 0);
    assert_eq!(a.count("work", Lang::En), 9);
}

#[test]
fn iter_lang_lists_one_language_in_word_order() {
    let mut usage = WordUsage::default();
    usage.increment("work", Lang::En);
    usage.increment("the", Lang::En);
    usage.increment("the", Lang::En);
    usage.increment("да", Lang::Ru);
    assert_eq!(usage.iter_lang(Lang::En), vec![("the".to_string(), 2), ("work".to_string(), 1)]);
    assert_eq!(usage.iter_lang(Lang::Ru), vec![("да".to_string(), 1)]);
    assert!(usage.contains("work", Lang::En));
    assert!(!usage.contains("work", Lang::Ru));
}
