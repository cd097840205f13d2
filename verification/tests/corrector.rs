use std::collections::VecDeque;
use std::sync::{Arc, Mutex};

use mxks::convert::Stroke;
use mxks::corrector::{check_source, layout_from_read, plan_conversion, CorrectError, Corrector, SourceCheck};
use mxks::keycode::PhysKey;
use mxks::layout::Lang;
use mxks::platform::{InjectHistory, KeyInjector, LayoutHistory, LayoutSwitcher};

#[derive(Clone, Debug, PartialEq, Eq)]
enum Op {
    Current,
    Switch(Lang),
    Type(String),
    Replace { erase: usize, text: String, trailing: String },
}

type Log = Arc<Mutex<Vec<Op>>>;

struct MockInjector(Log);

impl KeyInjector for MockInjector {
    fn injected(&self) -> InjectHistory {
        unreachable!("the injector history exists only for verification")
    }

    fn backspaces(&mut self, _n: usize) -> Result<(), String> {
        unreachable!("convert must use atomic replace_text")
    }

    fn type_text(&mut self, text: &str) -> Result<(), String> {
        self.0.lock().unwrap().push(Op::Type(text.to_string()));
        Ok(())
    }

    fn replace_text(&mut self, erase: usize, text: &str, trailing: &str) -> Result<(), String> {
        self.0.lock().unwrap().push(Op::Replace { erase, text: text.to_string(), trailing: trailing.to_string() });
        Ok(())
    }
}

enum LayoutRead {
    Value(Option<Lang>),
    Failure,
}

struct MockLayout {
    log: Log,
    reads: Mutex<VecDeque<LayoutRead>>,
}

impl LayoutSwitcher for MockLayout {
    fn layout_calls(&self) -> LayoutHistory {
        unreachable!("the layout history exists only for verification")
    }

    fn current(&mut self) -> Result<Option<Lang>, String> {
        self.log.lock().unwrap().push(Op::Current);
        match self.reads.lock().unwrap().pop_front() {
            Some(LayoutRead::Value(value)) => Ok(value),
            Some(LayoutRead::Failure) => Err("layout read failed".to_string()),
            None => panic!("unexpected layout read"),
        }
    }

    fn switch_to(&mut self, lang: Lang) -> Result<(), String> {
        self.log.lock().unwrap().push(Op::Switch(lang));
        Ok(())
    }
}

fn corrector(reads: impl IntoIterator<Item = LayoutRead>) -> (Corrector<MockInjector, MockLayout>, Log) {
    let log = Arc::new(Mutex::new(Vec::new()));
    let corrector = Corrector::new(
        MockInjector(log.clone()),
        MockLayout { log: log.clone(), reads: Mutex::new(reads.into_iter().collect()) },
    );
    (corrector, log)
}

fn how() -> [Stroke; 3] {
    [PhysKey::H, PhysKey::O, PhysKey::W].map(|key| Stroke { key, shift: false })
}

#[test]
fn target_already_active_skips_switch_and_replaces_atomically() {
    let (mut corrector, log) = corrector([LayoutRead::Value(Some(Lang::Ru))]);

    corrector.convert(&how(), Lang::En, Lang::Ru, " ", " ").unwrap();

    assert_eq!(
        *log.lock().unwrap(),
        vec![Op::Current, Op::Replace { erase: 4, text: "рщц".to_string(), trailing: " ".to_string() }]
    );
}

#[test]
fn source_active_switches_verifies_and_replaces_atomically() {
    let (mut corrector, log) =
        corrector([LayoutRead::Value(Some(Lang::En)), LayoutRead::Value(Some(Lang::Ru))]);

    corrector.convert(&how(), Lang::En, Lang::Ru, " ", " ").unwrap();

    assert_eq!(
        *log.lock().unwrap(),
        vec![
            Op::Current,
            Op::Switch(Lang::Ru),
            Op::Current,
            Op::Replace { erase: 4, text: "рщц".to_string(), trailing: " ".to_string() },
        ]
    );
}

#[test]
fn source_layout_read_failure_does_not_switch_or_inject() {
    let (mut corrector, log) = corrector([LayoutRead::Failure]);

    assert!(corrector.convert(&how(), Lang::En, Lang::Ru, " ", " ").is_err());
    assert_eq!(*log.lock().unwrap(), vec![Op::Current]);
}

#[test]
fn unknown_layout_does_not_switch_or_inject() {
    let (mut corrector, log) = corrector([LayoutRead::Value(None)]);

    assert!(corrector.convert(&how(), Lang::En, Lang::Ru, " ", " ").is_err());
    assert_eq!(*log.lock().unwrap(), vec![Op::Current]);
}

#[test]
fn requested_switch_still_requires_target_verification() {
    let (mut corrector, log) =
        corrector([LayoutRead::Value(Some(Lang::En)), LayoutRead::Value(Some(Lang::En))]);

    assert!(corrector.convert(&how(), Lang::En, Lang::Ru, " ", " ").is_err());
    assert_eq!(*log.lock().unwrap(), vec![Op::Current, Op::Switch(Lang::Ru), Op::Current]);
}

#[test]
fn conversion_errors_name_what_was_found() {
    let (mut c, _log) = corrector([LayoutRead::Value(None)]);
    assert_eq!(
        c.convert(&how(), Lang::En, Lang::Ru, "", ""),
        Err(CorrectError::LayoutChanged { from: Lang::En, to: Lang::Ru, found: None })
    );
    let (mut c, _log) = corrector([LayoutRead::Value(Some(Lang::En)), LayoutRead::Value(None)]);
    assert_eq!(
        c.convert(&how(), Lang::En, Lang::Ru, "", ""),
        Err(CorrectError::TargetNotActive { to: Lang::Ru, found: None })
    );
    let (mut c, _log) = corrector([LayoutRead::Failure]);
    assert_eq!(c.convert(&how(), Lang::En, Lang::Ru, "", ""), Err(CorrectError::Platform("layout read failed".to_string())));
}

#[test]
fn plan_counts_rendered_characters() {
    let keys = [Stroke { key: PhysKey::Slash, shift: false }, Stroke { key: PhysKey::A, shift: true }];
    let plan = plan_conversion(&keys, Lang::En, Lang::Ru, "  ");
    assert_eq!(plan.source_text, "/A");
    assert_eq!(plan.replacement_text, "Ф");
    assert_eq!(plan.erase, 4);
}

#[test]
fn source_check_decisions() {
    assert_eq!(check_source(Some(Lang::En), Lang::En, Lang::Ru), SourceCheck::Switch);
    assert_eq!(check_source(Some(Lang::Ru), Lang::En, Lang::Ru), SourceCheck::AlreadyTarget);
    assert_eq!(check_source(None, Lang::En, Lang::Ru), SourceCheck::Mismatch);
}

#[test]
fn completion_switches_only_when_needed_and_types() {
    let (mut c, log) = corrector([LayoutRead::Value(Some(Lang::En))]);
    c.insert_completion("lo", Lang::En).unwrap();
    assert_eq!(*log.lock().unwrap(), vec![Op::Current, Op::Type("lo".to_string())]);

    let (mut c, log) = corrector([LayoutRead::Value(Some(Lang::En))]);
    c.insert_completion("вет", Lang::Ru).unwrap();
    assert_eq!(*log.lock().unwrap(), vec![Op::Current, Op::Switch(Lang::Ru), Op::Type("вет".to_string())]);
}

#[test]
fn tab_is_unsupported_by_default() {
    let (mut c, _log) = corrector([LayoutRead::Value(Some(Lang::En))]);
    assert!(c.tab().is_err());
    assert_eq!(c.current_layout(), Some(Lang::En));
}

#[test]
fn layout_from_read_passes_the_layout_and_drops_errors() {
    assert_eq!(layout_from_read(Ok(Some(Lang::Ru))), Some(Lang::Ru));
    assert_eq!(layout_from_read(Ok(None)), None);
    assert_eq!(layout_from_read(Err("no display".to_string())), None);
}
