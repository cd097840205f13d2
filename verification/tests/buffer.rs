use mxks::buffer::{Event, WordBuffer, MAX_WORD};
use mxks::convert::Stroke;
use mxks::keycode::PhysKey;
use mxks::keycode::PhysKey::{A, B, D, G, H, I, N, T};
use mxks::layout::Lang;

fn letter(k: PhysKey) -> Event {
    Event::Letter(Stroke { key: k, shift: false })
}

#[test]
fn accumulates_and_emits_on_boundary() {
    let mut b = WordBuffer::new(Lang::En);
    assert!(b.feed(letter(H)).is_none());
    assert!(b.feed(letter(I)).is_none());
    let word = b.feed(Event::Boundary).unwrap();
    assert_eq!(word.keys.len(), 2);
    assert_eq!(word.lang, Lang::En);
}

#[test]
fn backspace_shrinks() {
    let mut b = WordBuffer::new(Lang::En);
    b.feed(letter(H));
    b.feed(letter(I));
    b.feed(Event::Backspace);
    let word = b.feed(Event::Boundary).unwrap();
    assert_eq!(word.keys.len(), 1);
}

#[test]
fn reset_discards() {
    let mut b = WordBuffer::new(Lang::En);
    b.feed(letter(H));
    assert!(b.feed(Event::Reset).is_none());
    assert!(b.feed(Event::Boundary).is_none());
}

#[test]
fn empty_boundary_is_noop() {
    let mut b = WordBuffer::new(Lang::En);
    assert!(b.feed(Event::Boundary).is_none());
}

#[test]
fn word_start_lang_is_captured() {
    let mut b = WordBuffer::new(Lang::En);
    b.feed(letter(H));
    b.set_lang(Lang::Ru);
    let word = b.feed(Event::Boundary).unwrap();
    assert_eq!(word.lang, Lang::En);
}

#[test]
fn maximum_length_word_is_still_eligible() {
    let mut b = WordBuffer::new(Lang::En);
    for _ in 0..MAX_WORD {
        b.feed(letter(A));
    }
    assert_eq!(b.feed(Event::Boundary).unwrap().keys.len(), MAX_WORD);
}

#[test]
fn overflow_does_not_expose_a_correctable_suffix() {
    let mut b = WordBuffer::new(Lang::En);
    for _ in 0..MAX_WORD + 1 {
        b.feed(letter(A));
    }
    for key in [G, H, B, D, T, N] {
        b.feed(letter(key));
    }
    assert!(b.is_empty());
    assert!(b.current().is_none());
    assert!(b.feed(Event::Boundary).is_none());

    b.set_lang(Lang::Ru);
    b.feed(letter(H));
    let next = b.feed(Event::Boundary).unwrap();
    assert_eq!(next.keys.len(), 1);
    assert_eq!(next.lang, Lang::Ru);
}

#[test]
fn backspace_cannot_reenable_an_untracked_word() {
    let mut b = WordBuffer::new(Lang::En);
    for _ in 0..MAX_WORD * 3 {
        b.feed(letter(A));
    }
    b.feed(Event::Backspace);
    b.feed(letter(H));
    assert!(b.current().is_none());
    assert!(b.feed(Event::Boundary).is_none());
}

#[test]
fn explicit_reset_or_clear_resumes_tracking_after_overflow() {
    for reset in [true, false] {
        let mut b = WordBuffer::new(Lang::En);
        for _ in 0..MAX_WORD + 1 {
            b.feed(letter(A));
        }
        if reset {
            b.feed(Event::Reset);
        } else {
            b.clear();
        }
        b.feed(letter(H));
        assert_eq!(b.feed(Event::Boundary).unwrap().keys.len(), 1);
    }
}

#[test]
fn current_reports_word_in_progress_with_start_layout() {
    let mut b = WordBuffer::new(Lang::Ru);
    assert!(b.current().is_none());
    b.feed(letter(G));
    b.set_lang(Lang::En);
    b.feed(letter(H));
    let w = b.current().unwrap();
    assert_eq!(w.keys.len(), 2);
    assert_eq!(w.lang, Lang::Ru);
    assert!(!b.is_empty());
}

#[test]
fn backspace_on_empty_buffer_keeps_it_empty() {
    let mut b = WordBuffer::new(Lang::En);
    assert!(b.feed(Event::Backspace).is_none());
    assert!(b.is_empty());
    assert!(b.feed(Event::Boundary).is_none());
}
