use overlay_core::watchdog::{
    HEARTBEAT_DEAD_AFTER_NANOS, READY_TIMEOUT_DEBUG_NANOS, READY_TIMEOUT_RELEASE_NANOS,
};
use overlay_core::{ready_timeout, Watchdog, WatchdogAction};

const SEC: u64 = 1_000_000_000;

#[test]
fn timeouts() {
    assert_eq!(ready_timeout(true), 120 * SEC);
    assert_eq!(ready_timeout(false), 20 * SEC);
    assert_eq!(READY_TIMEOUT_DEBUG_NANOS, 120 * SEC);
    assert_eq!(READY_TIMEOUT_RELEASE_NANOS, 20 * SEC);
    assert_eq!(HEARTBEAT_DEAD_AFTER_NANOS, 10 * SEC);
}

#[test]
fn auto_exit_defaults() {
    assert!(!Watchdog::new(true).is_enabled());
    assert!(Watchdog::new(false).is_enabled());
}

#[test]
fn set_enabled_is_read_back() {
    let mut w = Watchdog::new(true);
    w.set_enabled(true);
    assert!(w.is_enabled());
    w.set_enabled(false);
    assert!(!w.is_enabled());
}

#[test]
fn env_override() {
    let mut w = Watchdog::new(true);
    w.apply_env(None);
    assert!(!w.is_enabled());
    w.apply_env(Some(" ON "));
    assert!(w.is_enabled());
    w.apply_env(Some("maybe"));
    assert!(w.is_enabled());
    w.apply_env(Some("0"));
    assert!(!w.is_enabled());
}

#[test]
fn ready_only_once() {
    let mut w = Watchdog::new(false);
    assert!(w.mark_ready(SEC));
    assert!(!w.mark_ready(2 * SEC));
    w.heartbeat(3 * SEC);
    assert!(!w.mark_ready(4 * SEC));
}

#[test]
fn not_ready_exits_after_timeout_only() {
    let mut w = Watchdog::new(false);
    let t = ready_timeout(false);
    assert_eq!(w.decide(5 * SEC, 6 * SEC, t), WatchdogAction::Idle);
    assert_eq!(w.decide(5 * SEC, 5 * SEC + t, t), WatchdogAction::Idle);
    assert_eq!(w.decide(5 * SEC, 5 * SEC + t + 1, t), WatchdogAction::Exit);
    // A clock reading before the start counts as no time passed.
    assert_eq!(w.decide(5 * SEC, 0, t), WatchdogAction::Idle);
    // Stale heartbeats do not matter before readiness.
    w.heartbeat(0);
    assert_eq!(w.decide(5 * SEC, 100 * SEC, 120 * SEC), WatchdogAction::Idle);
}

#[test]
fn fresh_heartbeats_do_nothing() {
    let mut w = Watchdog::new(false);
    w.mark_ready(SEC);
    assert_eq!(w.decide(0, 2 * SEC, 20 * SEC), WatchdogAction::Idle);
    assert_eq!(w.decide(0, 11 * SEC, 20 * SEC), WatchdogAction::Idle);
    w.heartbeat(10 * SEC);
    assert_eq!(w.decide(0, 20 * SEC, 20 * SEC), WatchdogAction::Idle);
}

#[test]
fn stale_heartbeat_exits_when_enabled() {
    let mut w = Watchdog::new(false);
    w.mark_ready(SEC);
    assert_eq!(w.decide(0, 11 * SEC + 1, 20 * SEC), WatchdogAction::Exit);
}

#[test]
fn stale_heartbeat_hides_once_in_dev_then_shows_on_resume() {
    let mut w = Watchdog::new(true);
    w.mark_ready(SEC);
    assert_eq!(w.decide(0, 11 * SEC + 1, 120 * SEC), WatchdogAction::Hide);
    assert_eq!(w.decide(0, 12 * SEC, 120 * SEC), WatchdogAction::Idle);
    assert_eq!(w.decide(0, 60 * SEC, 120 * SEC), WatchdogAction::Idle);
    w.heartbeat(61 * SEC);
    assert_eq!(w.decide(0, 62 * SEC, 120 * SEC), WatchdogAction::Show);
    assert_eq!(w.decide(0, 63 * SEC, 120 * SEC), WatchdogAction::Idle);
    assert_eq!(w.decide(0, 80 * SEC, 120 * SEC), WatchdogAction::Hide);
}

#[test]
fn hidden_window_exits_once_auto_exit_is_switched_on() {
    let mut w = Watchdog::new(true);
    w.mark_ready(0);
    assert_eq!(w.decide(0, 20 * SEC, 120 * SEC), WatchdogAction::Hide);
    w.set_enabled(true);
    assert_eq!(w.decide(0, 21 * SEC, 120 * SEC), WatchdogAction::Exit);
}

#[test]
fn heartbeat_from_the_future_counts_as_fresh() {
    let mut w = Watchdog::new(false);
    w.mark_ready(50 * SEC);
    assert_eq!(w.decide(0, 40 * SEC, 20 * SEC), WatchdogAction::Idle);
}

#[test]
fn release_build_ignores_the_off_override() {
    for v in ["0", "false", "off", " OFF "] {
        let mut w = Watchdog::new(false);
        w.apply_env(Some(v));
        assert!(w.is_enabled(), "{v:?}");
    }
    let mut w = Watchdog::new(false);
    w.apply_env(Some("1"));
    assert!(w.is_enabled());
    assert!(!w.is_debug_build());
}

#[test]
fn release_build_ignores_the_switch() {
    let mut w = Watchdog::new(false);
    w.set_enabled(false);
    assert!(w.is_enabled());
    w.mark_ready(0);
    assert_eq!(w.decide(0, 11 * SEC + 1, 20 * SEC), WatchdogAction::Exit);
}

#[test]
fn debug_build_takes_the_override() {
    let mut w = Watchdog::new(true);
    assert!(w.is_debug_build());
    w.apply_env(Some("on"));
    assert!(w.is_enabled());
    w.apply_env(Some("off"));
    assert!(!w.is_enabled());
}

#[test]
fn fatal_error_exits_only_with_auto_exit() {
    assert_eq!(Watchdog::new(false).on_fatal(), WatchdogAction::Exit);
    let mut w = Watchdog::new(true);
    assert_eq!(w.on_fatal(), WatchdogAction::Idle);
    w.set_enabled(true);
    assert_eq!(w.on_fatal(), WatchdogAction::Exit);
}
