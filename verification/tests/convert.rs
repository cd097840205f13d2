use mxks::convert::{convert_str, convert_str_to, render_keys, Stroke};
use mxks::keycode::PhysKey::{Slash, G, H, T};
use mxks::layout::Lang;

#[test]
fn en_typed_as_ru() {
    assert_eq!(convert_str("ghbdtn"), "привет");
    assert_eq!(convert_str("Ghbdtn"), "Привет");
    assert_eq!(convert_str("vfvf"), "мама");
}

#[test]
fn ru_typed_as_en() {
    assert_eq!(convert_str("руддщ"), "hello");
    assert_eq!(convert_str("Руддщ"), "Hello");
}

#[test]
fn directed_conversion() {
    assert_eq!(convert_str_to("ghbdtn", Lang::En), "привет");
    assert_eq!(convert_str_to("руддщ", Lang::Ru), "hello");
}

#[test]
fn round_trip() {
    let word = "программирование";
    let latin = convert_str_to(word, Lang::Ru);
    assert_eq!(convert_str_to(&latin, Lang::En), word);
}

#[test]
fn render_from_keys() {
    let keys = [
        Stroke { key: G, shift: false },
        Stroke { key: H, shift: false },
        Stroke { key: T, shift: false },
    ];
    assert_eq!(render_keys(&keys, Lang::Ru), "пре");
    assert_eq!(render_keys(&keys, Lang::En), "ght");
}

#[test]
fn shift_is_uppercase() {
    let keys = [Stroke { key: G, shift: true }, Stroke { key: H, shift: false }];
    assert_eq!(render_keys(&keys, Lang::Ru), "Пр");
}

#[test]
fn passthrough_unknown() {
    assert_eq!(convert_str("123"), "123");
}

#[test]
fn punctuation_keys_convert_to_russian_letters() {
    assert_eq!(convert_str_to("[]';,.`", Lang::En), "хъэжбюё");
    assert_eq!(convert_str_to("хъэжбюё", Lang::Ru), "[]';,.`");
}

#[test]
fn render_then_convert_gives_target_rendering() {
    let keys = [Stroke { key: G, shift: true }, Stroke { key: H, shift: false }, Stroke { key: T, shift: false }];
    let en = render_keys(&keys, Lang::En);
    assert_eq!(en, "Ght");
    assert_eq!(convert_str_to(&en, Lang::En), render_keys(&keys, Lang::Ru));
}

#[test]
fn rendering_gives_one_char_per_key_with_a_glyph() {
    let keys = vec![
        Stroke { key: G, shift: true },
        Stroke { key: Slash, shift: false },
        Stroke { key: H, shift: false },
    ];
    assert_eq!(render_keys(&keys, Lang::En).chars().count(), 3);
    assert_eq!(render_keys(&keys, Lang::Ru).chars().count(), 2);
    assert_eq!(render_keys(&keys, Lang::Ru), "Пр");
}

#[test]
fn conversion_keeps_the_length() {
    for (s, from) in [("ghbdtn, vbh!", Lang::En), ("привет, МИР", Lang::Ru), ("123 ~`", Lang::En)] {
        assert_eq!(convert_str_to(s, from).chars().count(), s.chars().count());
    }
    let s = "программирование";
    assert_eq!(convert_str_to(&convert_str_to(s, Lang::Ru), Lang::En), s);
}
