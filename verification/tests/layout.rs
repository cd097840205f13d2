use mxks::layout::{char_to_key, is_letter_of, key_to_char, to_lower, Lang};
use mxks::PhysKey;

#[test]
fn layout_tables() {
    assert_eq!(key_to_char(PhysKey::Q, Lang::Ru), Some('й'));
    assert_eq!(key_to_char(PhysKey::Slash, Lang::Ru), None);
    assert_eq!(key_to_char(PhysKey::Slash, Lang::En), Some('/'));
    assert_eq!(char_to_key('Й', Lang::Ru), Some(PhysKey::Q));
    assert_eq!(char_to_key('ё', Lang::Ru), Some(PhysKey::Backtick));
    assert_eq!(char_to_key('й', Lang::En), None);
    assert_eq!(to_lower('Ж'), 'ж');
    assert!(is_letter_of('ж', Lang::Ru));
    assert!(!is_letter_of(';', Lang::En));
    assert_eq!(Lang::En.other(), Lang::Ru);
    assert_eq!(Lang::Ru.other().other(), Lang::Ru);
}

#[test]
fn key_lookup_ignores_case() {
    assert_eq!(char_to_key('П', Lang::Ru), Some(PhysKey::G));
    assert_eq!(char_to_key('п', Lang::Ru), Some(PhysKey::G));
    assert_eq!(char_to_key('G', Lang::En), char_to_key('g', Lang::En));
    assert_eq!(char_to_key('/', Lang::Ru), None);
    assert_eq!(char_to_key('/', Lang::En), Some(PhysKey::Slash));
}
