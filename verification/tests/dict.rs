use mxks::dict::{complete, contains};
use mxks::layout::Lang;
use mxks::usage::WordUsage;

#[test]
fn known_words_present() {
    assert!(contains("hello", Lang::En));
    assert!(contains("Hello", Lang::En));
    assert!(contains("привет", Lang::Ru));
}

#[test]
fn gibberish_absent() {
    assert!(!contains("ghbdtn", Lang::En));
    assert!(!contains("zzxqwk", Lang::En));
}

#[test]
fn complete_prefers_frequency_over_alphabet() {
    let usage = WordUsage::default();
    assert_eq!(complete("th", Lang::En, &usage, 0), Some("the"));
    assert_eq!(complete("wor", Lang::En, &usage, 0), Some("work"));
}

#[test]
fn complete_russian() {
    let usage = WordUsage::default();
    let completion = complete("прив", Lang::Ru, &usage, 0).unwrap();
    assert!(completion.starts_with("прив"));
    assert!(completion.len() > "прив".len());
}

#[test]
fn learned_ranking_uses_count_then_static_rank() {
    let mut usage = WordUsage::default();
    usage.increment("готово", Lang::Ru);
    usage.increment("готово", Lang::Ru);
    usage.increment("готовить", Lang::Ru);

    assert_eq!(complete("г", Lang::Ru, &usage, 1), Some("готово"));

    usage.increment("готовить", Lang::Ru);
    assert_eq!(complete("г", Lang::Ru, &usage, 1), Some("готово"));

    usage.increment("готовить", Lang::Ru);
    assert_eq!(complete("г", Lang::Ru, &usage, 1), Some("готовить"));
}

#[test]
fn learned_candidates_must_match_the_full_prefix() {
    let mut usage = WordUsage::default();
    usage.increment("готово", Lang::Ru);
    usage.increment("готовить", Lang::Ru);

    let completion = complete("готи", Lang::Ru, &usage, 1);
    assert_ne!(completion, Some("готово"));
    assert!(completion.is_none_or(|word| word.starts_with("готи")));
}

#[test]
fn learned_only_cutoff_excludes_untrained_words() {
    let usage = WordUsage::default();
    assert_eq!(complete("th", Lang::En, &usage, 1), None);

    let mut usage = usage;
    usage.increment("the", Lang::En);
    assert_eq!(complete("th", Lang::En, &usage, 2), None);
    assert_eq!(complete("th", Lang::En, &usage, 1), Some("the"));
}

#[test]
fn complete_requires_strict_extension() {
    let mut usage = WordUsage::default();
    usage.increment("the", Lang::En);
    assert_ne!(complete("the", Lang::En, &usage, 0), Some("the"));
    assert_ne!(complete("the", Lang::En, &usage, 1), Some("the"));
    assert_eq!(complete("zzxqwk", Lang::En, &usage, 0), None);
}

#[test]
fn complete_empty_prefix_is_none() {
    let usage = WordUsage::default();
    assert_eq!(complete("", Lang::En, &usage, 0), None);
    assert_eq!(complete("", Lang::En, &usage, 1), None);
}

#[test]
fn learned_count_outranks_frequency() {
    let mut usage = WordUsage::default();
    usage.increment("this", Lang::En);
    assert_eq!(complete("th", Lang::En, &usage, 0), Some("this"));
}
