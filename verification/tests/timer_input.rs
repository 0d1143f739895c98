use kingshot::input::{PointerDevice, PointerModifiers};
use kingshot::timer::OnceTimer;

#[test]
fn once_timer_counts_and_caps() {
    let mut t = OnceTimer::new(1_000);
    assert!(!t.finished());
    t.tick(400);
    assert_eq!(t.elapsed_nanos(), 400);
    assert!(!t.finished());
    assert!(!t.just_finished());
    t.tick(700);
    assert_eq!(t.elapsed_nanos(), 1_000);
    assert!(t.finished());
    assert!(t.just_finished());
    t.tick(5);
    assert_eq!(t.elapsed_nanos(), 1_000);
    assert!(t.finished());
    assert!(!t.just_finished());
}

#[test]
fn once_timer_finishes_on_exact_duration() {
    let mut t = OnceTimer::new(250);
    t.tick(250);
    assert!(t.just_finished());
    assert_eq!(t.elapsed_nanos(), 250);
}

#[test]
fn zero_duration_timer_finishes_on_first_tick() {
    let mut t = OnceTimer::new(0);
    assert!(!t.finished());
    t.tick(0);
    assert!(t.finished());
    assert!(t.just_finished());
}

#[test]
fn huge_ticks_do_not_overflow() {
    let mut t = OnceTimer::new(u64::MAX);
    t.tick(u64::MAX - 1);
    assert!(!t.finished());
    t.tick(u64::MAX);
    assert!(t.finished());
    assert_eq!(t.elapsed_nanos(), u64::MAX);
}

#[test]
fn pointer_types_are_classified_ignoring_case() {
    assert_eq!(PointerDevice::from_str("touch"), PointerDevice::Touch);
    assert_eq!(PointerDevice::from_str("TOUCH"), PointerDevice::Touch);
    assert_eq!(PointerDevice::from_str("Mouse"), PointerDevice::Mouse);
    assert_eq!(PointerDevice::from_str("pEn"), PointerDevice::Pen);
    assert_eq!(PointerDevice::from_str("stylus"), PointerDevice::Unknown);
    assert_eq!(PointerDevice::from_str(""), PointerDevice::Unknown);
    assert_eq!(PointerDevice::from_str("touchpad"), PointerDevice::Unknown);
    assert_eq!(PointerDevice::from_str("pe"), PointerDevice::Unknown);
    assert_eq!(PointerDevice::from_str("\u{0130}en"), PointerDevice::Unknown);
}

#[test]
fn no_modifier_by_default() {
    let m = PointerModifiers::default();
    assert!(!m.alt && !m.ctrl && !m.meta && !m.shift);
}
