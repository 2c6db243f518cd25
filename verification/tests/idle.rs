use rpcmux::idle::IdleClock;

#[test]
fn a_clock_without_a_limit_finds_nothing_overdue() {
    let mut clock = IdleClock::new();
    assert_eq!(clock.now(), 0);
    clock.touch(1);
    clock.advance(1_000_000);
    assert!(!clock.is_overdue(1));
    assert!(!clock.is_overdue(2));
}

#[test]
fn a_call_is_overdue_once_the_limit_has_passed() {
    let mut clock = IdleClock::new();
    clock.set_limit(Some(5));
    clock.advance(10);
    clock.touch(1);
    clock.advance(14);
    assert!(!clock.is_overdue(1));
    clock.advance(15);
    assert!(clock.is_overdue(1));
    clock.touch(1);
    assert!(!clock.is_overdue(1));
    clock.advance(20);
    assert!(clock.is_overdue(1));
}

#[test]
fn time_does_not_run_backwards() {
    let mut clock = IdleClock::new();
    clock.advance(7);
    clock.advance(3);
    assert_eq!(clock.now(), 7);
    clock.advance(7);
    assert_eq!(clock.now(), 7);
    clock.advance(8);
    assert_eq!(clock.now(), 8);
}

#[test]
fn a_forgotten_call_is_never_overdue() {
    let mut clock = IdleClock::new();
    clock.set_limit(Some(0));
    assert!(!clock.is_overdue(1));
    clock.touch(1);
    assert!(clock.is_overdue(1));
    clock.forget(1);
    assert!(!clock.is_overdue(1));
    clock.forget(1);
    assert!(!clock.is_overdue(1));
}

#[test]
fn the_peer_is_silent_once_the_keep_alive_limit_has_passed() {
    let mut clock = IdleClock::new();
    clock.advance(100);
    assert!(!clock.is_silent());
    clock.set_keep_alive(Some(50));
    assert!(clock.is_silent());
    clock.hear();
    assert!(!clock.is_silent());
    clock.advance(149);
    assert!(!clock.is_silent());
    clock.advance(150);
    assert!(clock.is_silent());
    clock.touch(1);
    assert!(clock.is_silent());
    clock.hear();
    assert!(!clock.is_silent());
}
