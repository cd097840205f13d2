use mxks::convert::Stroke;
use mxks::engine::{AppMode, ManualPlan};
use mxks::keycode::PhysKey;
use mxks::session::{AcceptPlan, Session, SuggestionUpdate};
use mxks::Lang;

fn s(key: PhysKey) -> Stroke {
    Stroke { key, shift: false }
}

#[test]
fn word_start_reads_the_layout_and_boundary_completes_the_word() {
    let mut session = Session::new(Lang::En);
    assert!(!session.word_in_progress());
    session.letter(s(PhysKey::G), Some(Lang::Ru));
    assert_eq!(session.active(), Lang::Ru);
    session.letter(s(PhysKey::H), Some(Lang::En));
    assert_eq!(session.active(), Lang::Ru);
    let (word, shown) = session.boundary(Some(' '));
    assert!(!shown);
    let word = word.unwrap();
    assert_eq!(word.lang, Lang::Ru);
    assert_eq!(word.keys.len(), 2);
    assert!(!session.word_in_progress());
}

#[test]
fn hotkey_converts_last_word_then_toggles_it_back() {
    let mut session = Session::new(Lang::En);
    for k in [PhysKey::H, PhysKey::O, PhysKey::W] {
        session.letter(s(k), Some(Lang::En));
    }
    session.boundary(Some(' '));
    let (plan, _) = session.hotkey(true, AppMode::Full);
    match &plan {
        ManualPlan::First { from, to, existing_trailing, replacement_trailing, in_progress, .. } => {
            assert_eq!((*from, *to), (Lang::En, Lang::Ru));
            assert_eq!(existing_trailing, " ");
            assert_eq!(replacement_trailing, " ");
            assert!(!in_progress);
        }
        other => panic!("expected a first conversion, got {other:?}"),
    }
    session.manual_finished(plan, true);
    assert_eq!(session.active(), Lang::Ru);
    let (plan, _) = session.hotkey(true, AppMode::ManualOnly);
    match &plan {
        ManualPlan::Toggle { from, to, trailing, .. } => {
            assert_eq!((*from, *to), (Lang::Ru, Lang::En));
            assert_eq!(trailing, " ");
        }
        other => panic!("expected a toggle, got {other:?}"),
    }
    session.manual_finished(plan, true);
    assert_eq!(session.active(), Lang::En);
    session.letter(s(PhysKey::A), None);
    let (plan, _) = session.hotkey(true, AppMode::Full);
    assert!(matches!(plan, ManualPlan::First { in_progress: true, .. }));
}

#[test]
fn failed_conversion_changes_nothing_and_off_apps_skip() {
    let mut session = Session::new(Lang::En);
    session.letter(s(PhysKey::H), None);
    let (plan, _) = session.hotkey(true, AppMode::Full);
    session.manual_finished(plan, false);
    assert!(session.word_in_progress());
    assert_eq!(session.active(), Lang::En);
    let (plan, _) = session.hotkey(true, AppMode::Off);
    assert!(matches!(plan, ManualPlan::Skip));
}

#[test]
fn suggestion_updates_and_accept() {
    let mut session = Session::new(Lang::En);
    for k in [PhysKey::W, PhysKey::O, PhysKey::R] {
        session.letter(s(k), None);
    }
    assert_eq!(session.update_suggestion(None), SuggestionUpdate::Nothing);
    assert_eq!(session.update_suggestion(Some("k".to_string())), SuggestionUpdate::Show("k".to_string()));
    assert!(session.has_suggestion());
    match session.accept(true) {
        AcceptPlan::Insert { remainder, lang, accepted } => {
            assert_eq!(remainder, "k");
            assert_eq!(lang, Lang::En);
            assert_eq!(accepted, Some("work".to_string()));
            session.completion_inserted(&remainder, lang);
        }
        other => panic!("expected an insert, got {other:?}"),
    }
    assert_eq!(session.current_word().unwrap().keys.len(), 4);
    assert!(!session.has_suggestion());
}

#[test]
fn stale_accept_replays_tab_or_drops() {
    let mut session = Session::new(Lang::En);
    session.letter(s(PhysKey::A), None);
    assert!(matches!(session.accept(true), AcceptPlan::ReplayTab));
    assert!(!session.word_in_progress());
    let (plan, _) = session.hotkey(true, AppMode::Full);
    assert!(matches!(plan, ManualPlan::First { in_progress: false, .. }));

    let mut session = Session::new(Lang::En);
    session.letter(s(PhysKey::A), None);
    assert!(matches!(session.accept(false), AcceptPlan::Dropped));
    assert!(!session.word_in_progress());
}

#[test]
fn reset_hides_and_forgets() {
    let mut session = Session::new(Lang::En);
    session.letter(s(PhysKey::A), None);
    session.update_suggestion(Some("x".to_string()));
    assert!(session.reset());
    assert!(!session.word_in_progress());
    let (plan, shown) = session.hotkey(true, AppMode::Full);
    assert!(!shown);
    assert!(matches!(plan, ManualPlan::Skip));
}
