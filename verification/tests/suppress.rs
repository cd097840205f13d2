use mxks::platform::suppress::{Filter, Suppress};

#[test]
fn echo_is_dropped_once_per_expect() {
    let mut s = Suppress::new();
    s.expect(38);
    s.expect(38);
    assert_eq!(s.filter(38), Filter::DropEcho);
    assert_eq!(s.filter(38), Filter::DropEcho);
    assert_eq!(s.filter(38), Filter::Real);
}

#[test]
fn unexpected_press_during_injection_window_is_dropped() {
    let mut s = Suppress::new();
    let guard = s.injection();
    assert_eq!(s.filter(40), Filter::DropInjecting);
    s.end_injection(guard);
    assert_eq!(s.filter(40), Filter::Real);
}

#[test]
fn nested_injection_windows_close_only_at_depth_zero() {
    let mut s = Suppress::new();
    let outer = s.injection();
    let inner = s.injection();
    s.end_injection(inner);
    assert_eq!(s.filter(40), Filter::DropInjecting);
    s.end_injection(outer);
    assert_eq!(s.filter(40), Filter::Real);
}

#[test]
fn counters_are_not_cleared_before_deadline() {
    let mut s = Suppress::new();
    s.expect(38);
    let guard = s.injection();
    s.end_injection(guard);
    assert_eq!(s.filter(50), Filter::Real);
    assert_eq!(s.filter(38), Filter::DropEcho);
}

#[test]
fn stale_counters_are_cleared_after_deadline_at_given_clock() {
    let mut s = Suppress::with_stale_after_ms(5);
    let guard = s.injection();
    s.expect(38);
    s.end_injection_at(guard, 10);
    assert_eq!(s.filter_at(38, 15), Filter::DropEcho);
    s.expect(38);
    assert_eq!(s.filter_at(38, 16), Filter::Real);
    assert_eq!(s.filter_at(38, 16), Filter::Real);
}

#[test]
fn counters_are_never_cleared_before_any_injection_ends_at_given_clock() {
    let mut s = Suppress::with_stale_after_ms(1);
    s.expect(38);
    assert_eq!(s.filter_at(50, 1_000), Filter::Real);
    assert_eq!(s.filter_at(38, 1_000), Filter::DropEcho);
}

#[test]
fn expect_counter_wraps_like_an_atomic() {
    let mut s = Suppress::new();
    for _ in 0..=u16::MAX as u32 {
        s.expect(7);
    }
    assert_eq!(s.filter(7), Filter::Real);
}
