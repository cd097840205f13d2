use std::cell::Cell;

use mxks::platform::win_layout::{
    delivery_mode_for_app, lang_of_langid, process_basename, langid_for, poll_step, poll_until_active, ActivationPollFailure, ClosureProbe,
    DeliveryMode, PollStep, LANGID_EN, LANGID_RU,
};
use mxks::Lang;

#[test]
fn only_exact_notepad_process_uses_synchronous_delivery() {
    assert_eq!(delivery_mode_for_app(Some("notepad++.exe")), DeliveryMode::Synchronous);
    for app in [None, Some("NOTEPAD++.EXE"), Some("telegram.exe"), Some("chrome.exe")] {
        assert_eq!(delivery_mode_for_app(app), DeliveryMode::Posted);
    }
}

#[test]
fn delayed_activation_after_many_polls_succeeds() {
    let mut polls = 0;
    let elapsed = Cell::new(0u64);
    let result = {
        let mut probe = ClosureProbe::new(|| {
            polls += 1;
            let current = if polls >= 26 { LANGID_RU } else { LANGID_EN };
            (true, current)
        },
        || elapsed.get(),
        |ms| elapsed.set(elapsed.get() + ms),
    );
        poll_until_active(LANGID_RU, &mut probe)
    };

    assert_eq!(result, Ok(()));
    assert!(polls >= 25);
}

#[test]
fn foreground_change_fails_polling() {
    let mut polls = 0;
    let elapsed = Cell::new(0u64);
    let result = {
        let mut probe = ClosureProbe::new(|| {
            polls += 1;
            (polls < 4, LANGID_EN)
        },
        || elapsed.get(),
        |ms| elapsed.set(elapsed.get() + ms),
    );
        poll_until_active(LANGID_RU, &mut probe)
    };

    assert_eq!(result, Err(ActivationPollFailure::ForegroundChanged));
    assert_eq!(polls, 4);
}

#[test]
fn exhausted_polling_fails() {
    let mut polls = 0;
    let elapsed = Cell::new(0u64);
    let result = {
        let mut probe = ClosureProbe::new(|| {
            polls += 1;
            (true, LANGID_EN)
        },
        || elapsed.get(),
        |ms| elapsed.set(elapsed.get() + ms),
    );
        poll_until_active(LANGID_RU, &mut probe)
    };

    assert_eq!(result, Err(ActivationPollFailure::Exhausted));
    assert!(polls > 25);
}

#[test]
fn poll_decision_priorities() {
    assert_eq!(poll_step(false, LANGID_RU, LANGID_RU, false), PollStep::Fail(ActivationPollFailure::ForegroundChanged));
    assert_eq!(poll_step(true, LANGID_RU, LANGID_RU, true), PollStep::Active);
    assert_eq!(poll_step(true, LANGID_EN, LANGID_RU, true), PollStep::Fail(ActivationPollFailure::Exhausted));
    assert_eq!(poll_step(true, LANGID_EN, LANGID_RU, false), PollStep::Wait);
}

#[test]
fn language_identifiers() {
    assert_eq!(langid_for(Lang::En), 0x0409);
    assert_eq!(langid_for(Lang::Ru), 0x0419);
    assert_eq!(lang_of_langid(0x0419), Some(Lang::Ru));
    assert_eq!(lang_of_langid(0x0407), None);
}

#[test]
fn process_basename_is_the_lowercased_file_name() {
    assert_eq!(process_basename("C:\\Program Files\\Notepad++\\notepad++.exe"), "notepad++.exe");
    assert_eq!(process_basename("C:/Apps/Telegram.EXE "), "telegram.exe");
    assert_eq!(process_basename("chrome.exe"), "chrome.exe");
    assert_eq!(process_basename("C:\\dir\\"), "");
}

#[test]
fn exhausted_polling_waits_out_the_deadline_in_single_milliseconds() {
    let mut polls = 0u64;
    let elapsed = Cell::new(0u64);
    let sleeps = Cell::new(Vec::new());
    let result = {
        let mut probe = ClosureProbe::new(|| {
            polls += 1;
            (true, LANGID_EN)
        },
        || elapsed.get(),
        |ms| {
            let mut v = sleeps.take();
            v.push(ms);
            sleeps.set(v);
            elapsed.set(elapsed.get() + ms)
        },
    );
        poll_until_active(LANGID_RU, &mut probe)
    };
    assert_eq!(result, Err(ActivationPollFailure::Exhausted));
    assert_eq!(polls, 251);
    let v = sleeps.take();
    assert_eq!(v.len(), 250);
    assert!(v.iter().all(|&ms| ms == 1));
}

#[test]
fn matching_layout_succeeds_at_once_even_past_the_deadline() {
    let mut polls = 0u64;
    let result = {
        let mut probe = ClosureProbe::new(|| {
            polls += 1;
            (true, LANGID_RU)
        },
        || 10_000,
        |_| {},
    );
        poll_until_active(LANGID_RU, &mut probe)
    };
    assert_eq!(result, Ok(()));
    assert_eq!(polls, 1);
}
