use mxks::buffer::Word;
use mxks::config::{Autocomplete, Settings};
use mxks::convert::Stroke;
use mxks::engine::{
    accept_key_for, apply_command, apply_reload, assign_key, is_tab_key, classify_focus, completion_strokes, compute_suggestion, manual_plan, should_autocorrect, AppMode,
    Command, CommandEffect, ManualPlan, Switches, Toggle,
};
use mxks::hotkey::parse;
use mxks::keycode::PhysKey;
use mxks::platform::CaptureTarget;
use mxks::usage::WordUsage;
use mxks::Lang;

fn strokes(keys: &[PhysKey], shift: bool) -> Vec<Stroke> {
    keys.iter().map(|&key| Stroke { key, shift }).collect()
}

fn settings() -> Settings {
    let mut s = Settings::default();
    s.exclusions.apps = vec!["keepassxc".to_string()];
    s.exclusions.manual_only = vec!["Code".to_string()];
    s
}

#[test]
fn focus_modes_follow_the_lists() {
    let s = settings();
    assert_eq!(classify_focus(&s, &None), (AppMode::Full, false));
    assert_eq!(classify_focus(&s, &Some("org.keepassxc.keepassxc".to_string())), (AppMode::Off, false));
    assert_eq!(classify_focus(&s, &Some("gnome-terminal-server".to_string())), (AppMode::ManualOnly, true));
    assert_eq!(classify_focus(&s, &Some("code".to_string())), (AppMode::ManualOnly, false));
    assert_eq!(classify_focus(&s, &Some("firefox".to_string())), (AppMode::Full, false));
    let mut auto = settings();
    auto.terminals.auto = true;
    assert_eq!(classify_focus(&auto, &Some("kitty".to_string())), (AppMode::Full, true));
    let mut both = settings();
    both.exclusions.apps.push("kitty".to_string());
    assert_eq!(classify_focus(&both, &Some("kitty".to_string())), (AppMode::Off, false));
    let mut empty = settings();
    empty.exclusions.apps = vec![String::new()];
    assert_eq!(classify_focus(&empty, &Some("firefox".to_string())), (AppMode::Full, false));
}

#[test]
fn autocorrect_gate_skips_mixed_case_and_non_space_boundaries() {
    let plain = strokes(&[PhysKey::G, PhysKey::H, PhysKey::B], false);
    assert!(should_autocorrect(&plain, Some(' '), true, true, AppMode::Full));
    assert!(!should_autocorrect(&plain, None, true, true, AppMode::Full));
    assert!(!should_autocorrect(&plain, Some(' '), false, true, AppMode::Full));
    assert!(!should_autocorrect(&plain, Some(' '), true, false, AppMode::Full));
    assert!(!should_autocorrect(&plain, Some(' '), true, true, AppMode::ManualOnly));
    let mut camel = plain.clone();
    camel[1].shift = true;
    assert!(!should_autocorrect(&camel, Some(' '), true, true, AppMode::Full));
    let caps = strokes(&[PhysKey::G, PhysKey::H, PhysKey::B], true);
    assert!(should_autocorrect(&caps, Some(' '), true, true, AppMode::Full));
    let mut leading = plain.clone();
    leading[0].shift = true;
    assert!(should_autocorrect(&leading, Some(' '), true, true, AppMode::Full));
}

#[test]
fn suggestion_completes_the_typed_prefix() {
    let ac = Autocomplete::default();
    let usage = WordUsage::default();
    let wor = Some(Word { keys: strokes(&[PhysKey::W, PhysKey::O, PhysKey::R], false), lang: Lang::En });
    assert_eq!(compute_suggestion(&ac, true, true, &wor, &usage), Some("k".to_string()));
    let caps = Some(Word { keys: strokes(&[PhysKey::W, PhysKey::O, PhysKey::R], true), lang: Lang::En });
    assert_eq!(compute_suggestion(&ac, true, true, &caps, &usage), Some("K".to_string()));
    assert_eq!(compute_suggestion(&ac, true, false, &wor, &usage), None);
    assert_eq!(compute_suggestion(&ac, false, true, &wor, &usage), None);
    let short = Some(Word { keys: strokes(&[PhysKey::T, PhysKey::H], false), lang: Lang::En });
    assert_eq!(compute_suggestion(&ac, true, true, &short, &usage), None);
    assert_eq!(compute_suggestion(&ac, true, true, &None, &usage), None);
    let mut demanding = Autocomplete::default();
    demanding.min_remainder = 2;
    assert_eq!(compute_suggestion(&demanding, true, true, &wor, &usage), None);
}

#[test]
fn accepted_completion_is_mirrored_as_keystrokes() {
    assert_eq!(
        completion_strokes("вЕт", Lang::Ru),
        vec![
            Stroke { key: PhysKey::D, shift: false },
            Stroke { key: PhysKey::T, shift: true },
            Stroke { key: PhysKey::N, shift: false },
        ]
    );
    assert_eq!(completion_strokes("a1b", Lang::En), strokes(&[PhysKey::A, PhysKey::B], false));
}

#[test]
fn manual_plan_prefers_toggle_then_current_then_last() {
    let w = Word { keys: strokes(&[PhysKey::G, PhysKey::H], false), lang: Lang::En };
    let toggle = Some(Toggle { keys: w.keys.clone(), trailing: " ".to_string(), lang: Lang::Ru });
    match manual_plan(true, AppMode::ManualOnly, &toggle, &None, &None) {
        ManualPlan::Toggle { from, to, trailing, .. } => {
            assert_eq!((from, to), (Lang::Ru, Lang::En));
            assert_eq!(trailing, " ");
        },
        other => panic!("expected a toggle, got {other:?}"),
    }
    match manual_plan(true, AppMode::Full, &None, &Some(w.clone()), &Some((w.clone(), "\n".to_string()))) {
        ManualPlan::First { existing_trailing, replacement_trailing, in_progress, .. } => {
            assert_eq!(existing_trailing, "");
            assert_eq!(replacement_trailing, " ");
            assert!(in_progress);
        },
        other => panic!("expected the current word, got {other:?}"),
    }
    match manual_plan(true, AppMode::Full, &None, &None, &Some((w.clone(), "\n".to_string()))) {
        ManualPlan::First { existing_trailing, replacement_trailing, in_progress, to, .. } => {
            assert_eq!(existing_trailing, "\n");
            assert_eq!(replacement_trailing, "\n");
            assert!(!in_progress);
            assert_eq!(to, Lang::Ru);
        },
        other => panic!("expected the last word, got {other:?}"),
    }
    assert!(matches!(manual_plan(true, AppMode::Off, &toggle, &None, &None), ManualPlan::Skip));
    assert!(matches!(manual_plan(false, AppMode::Full, &toggle, &None, &None), ManualPlan::Skip));
    assert!(matches!(manual_plan(true, AppMode::Full, &None, &None, &None), ManualPlan::Skip));
}

#[test]
fn commands_flip_switches_and_request_effects() {
    let mut sw = Switches { enabled: true, capturing: false };
    let mut s = Settings::default();
    let out = apply_command(Command::ToggleEnabled, &mut sw, &mut s);
    assert!(!sw.enabled);
    assert!(out.broadcast);
    apply_command(Command::ToggleEnabled, &mut sw, &mut s);
    assert!(sw.enabled);
    let out = apply_command(Command::ToggleAutocomplete, &mut sw, &mut s);
    assert_eq!(out.effect, CommandEffect::SaveAutocomplete(false));
    assert!(out.dismiss_suggestion);
    assert!(!s.autocomplete.enabled);
    let out = apply_command(Command::SetAcceptKey, &mut sw, &mut s);
    assert_eq!(out.effect, CommandEffect::BeginCapture(CaptureTarget::AcceptKey));
    assert!(sw.capturing);
    let out = apply_command(Command::Quit, &mut sw, &mut s);
    assert_eq!(out.effect, CommandEffect::Quit);
    assert!(!out.broadcast);
    let out = apply_command(Command::ToggleTerminalAuto, &mut sw, &mut s);
    assert_eq!(out.effect, CommandEffect::SaveTerminalAuto(true));
    assert!(s.terminals.auto);
}

#[test]
fn a_reload_installs_the_new_settings_and_hotkey() {
    let mut live = Settings::default();
    let mut fresh = Settings::default();
    fresh.hotkeys.convert_last_word = "Ctrl+Shift+K".to_string();
    fresh.general.autocorrect = false;
    let spec = apply_reload(&mut live, Some(fresh)).unwrap();
    assert_eq!(live.hotkeys.convert_last_word, "Ctrl+Shift+K");
    assert!(!live.general.autocorrect);
    assert_eq!(spec, parse("Ctrl+Shift+K").unwrap());
}

#[test]
fn a_reload_with_an_unparsable_hotkey_keeps_the_live_hotkey() {
    let mut live = Settings::default();
    let mut fresh = Settings::default();
    fresh.hotkeys.convert_last_word = "Ctrl+Shift".to_string();
    assert_eq!(apply_reload(&mut live, Some(fresh)), None);
    assert_eq!(live.hotkeys.convert_last_word, "Ctrl+Shift");
}

#[test]
fn a_failed_reload_keeps_everything() {
    let mut live = settings();
    live.general.autocorrect = false;
    assert_eq!(apply_reload(&mut live, None), None);
    assert!(!live.general.autocorrect);
    assert_eq!(live.exclusions.apps, vec!["keepassxc".to_string()]);
    assert_eq!(live.hotkeys.convert_last_word, "Pause");
}

#[test]
fn an_assigned_key_ends_capture_and_sets_the_right_setting() {
    let mut sw = Switches { enabled: true, capturing: true };
    let mut s = Settings::default();
    let shown = assign_key(CaptureTarget::ConvertHotkey, &parse("ctrl+f5").unwrap(), &mut sw, &mut s);
    assert_eq!(shown, "Ctrl+F5");
    assert_eq!(s.hotkeys.convert_last_word, "Ctrl+F5");
    assert_eq!(s.autocomplete.accept_key, "Tab");
    assert!(!sw.capturing && sw.enabled);

    sw.capturing = true;
    let shown = assign_key(CaptureTarget::AcceptKey, &parse("f8").unwrap(), &mut sw, &mut s);
    assert_eq!(shown, "F8");
    assert_eq!(s.autocomplete.accept_key, "F8");
    assert_eq!(s.hotkeys.convert_last_word, "Ctrl+F5");
    assert!(!sw.capturing);
}

#[test]
fn terminals_use_their_own_accept_key() {
    let s = Settings::default();
    assert_eq!(accept_key_for(&s, true), "Right");
    assert_eq!(accept_key_for(&s, false), "Tab");
}

#[test]
fn only_plain_tab_names_the_tab_key() {
    assert!(is_tab_key(&parse("Tab").unwrap()));
    assert!(is_tab_key(&parse("ctrl+tab").unwrap()));
    assert!(!is_tab_key(&parse("F8").unwrap()));
}

#[test]
fn the_case_gate_spares_caps_and_leading_capitals() {
    let caps = vec![Stroke { key: PhysKey::G, shift: true }, Stroke { key: PhysKey::H, shift: true }, Stroke { key: PhysKey::G, shift: true }];
    let leading = vec![Stroke { key: PhysKey::G, shift: true }, Stroke { key: PhysKey::H, shift: false }, Stroke { key: PhysKey::G, shift: false }];
    let camel = vec![Stroke { key: PhysKey::G, shift: false }, Stroke { key: PhysKey::H, shift: true }, Stroke { key: PhysKey::G, shift: false }];
    assert!(should_autocorrect(&caps, Some(' '), true, true, AppMode::Full));
    assert!(should_autocorrect(&leading, Some(' '), true, true, AppMode::Full));
    assert!(!should_autocorrect(&camel, Some(' '), true, true, AppMode::Full));
}
