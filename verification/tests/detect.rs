use mxks::convert::convert_str_to;
use mxks::layout::Lang;

#[test]
fn sanity_convert_helpers() {
    assert_eq!(convert_str_to("ghbdtn", Lang::En), "привет");
}
