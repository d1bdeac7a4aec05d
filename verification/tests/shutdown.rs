use hot_reload_proxy::shutdown::Shutdown;
use hot_reload_proxy::shutdown::ShutdownSignal;

#[test]
fn fresh_signal_has_not_fired() {
    let signal = ShutdownSignal::new();
    assert!(!signal.is_triggered());
    assert!(!signal.subscribe().is_shutdown());
}

#[test]
fn check_after_trigger_always_reports_shutdown() {
    let mut signal = ShutdownSignal::new();
    let mut early: Vec<Shutdown> = (0..10).map(|_| signal.subscribe()).collect();
    signal.trigger();
    for _ in 0..100 {
        assert!(signal.is_triggered());
    }
    // Every subscriber that was there before sees it at its next look,
    // and keeps seeing it.
    for subscription in early.iter_mut() {
        subscription.observe(&signal);
        for _ in 0..100 {
            assert!(subscription.is_shutdown());
        }
        subscription.observe(&signal);
        assert!(subscription.is_shutdown());
    }
    // Late subscribers are born with the flag set, however many there are.
    for _ in 0..10 {
        let late = signal.subscribe();
        assert!(late.is_shutdown());
        assert!(late.is_shutdown());
    }
}

#[test]
fn look_at_a_silent_signal_changes_nothing() {
    let signal = ShutdownSignal::new();
    let mut subscription = signal.subscribe();
    subscription.observe(&signal);
    assert!(!subscription.is_shutdown());
    assert_eq!(subscription, Shutdown::new(false));
}

#[test]
fn stale_look_does_not_clear_the_flag() {
    let mut subscription = Shutdown::new(true);
    subscription.observe(&ShutdownSignal::new());
    assert!(subscription.is_shutdown());
}

#[test]
fn trigger_twice_is_trigger_once() {
    let mut signal = ShutdownSignal::new();
    signal.trigger();
    signal.trigger();
    assert!(signal.is_triggered());
    assert_eq!(signal, ShutdownSignal { triggered: true });
}

#[test]
fn wait_that_came_back_sets_the_flag() {
    let mut subscription = Shutdown::new(false);
    assert!(!subscription.is_shutdown());
    subscription.recv();
    assert!(subscription.is_shutdown());
}

#[test]
fn wait_after_wait_keeps_the_flag() {
    let mut subscription = Shutdown::new(false);
    subscription.recv();
    subscription.recv();
    assert!(subscription.is_shutdown());
    assert_eq!(subscription, Shutdown::new(true));
}
