use chrome_cdp::session::{
    cleanup_outcome, BrowserHandle, BrowserState, CleanupOutcome, ProcessTracker,
    IDLE_THRESHOLD_MS, MONITOR_INTERVAL_MS,
};

#[test]
fn it_returns_version() {
    assert_eq!(chrome_cdp::version(), "0.1.0");
}

#[test]
fn test_browser_state_initialization() {
    let state = BrowserState::new(0);
    assert!(state.browser.is_none());
}

#[test]
fn test_inactivity_timeout_check() {
    // A freshly used session is not reaped within the idle threshold.
    let mut state = BrowserState::new(0);
    state.install(BrowserHandle { port: 9222, launch_seq: 1 });
    state.begin_acquire(1000);
    assert_eq!(state.reap(1000 + IDLE_THRESHOLD_MS, IDLE_THRESHOLD_MS), None);
    assert!(state.browser.is_some());
}

#[test]
fn sequential_acquires_reuse_the_same_pair() {
    let b = BrowserHandle { port: 9222, launch_seq: 1 };
    let mut state = BrowserState::new(0);
    // First use: nothing live yet, so the caller launches and installs.
    assert_eq!(state.begin_acquire(10), None);
    state.install(b);
    // Second use within the idle threshold: the same pair comes back.
    assert_eq!(state.begin_acquire(20), Some(b));
    // A monitor wake in between terminates nothing.
    assert_eq!(state.reap(25, IDLE_THRESHOLD_MS), None);
    assert_eq!(state.begin_acquire(30), Some(b));
}

#[test]
fn idle_session_is_reaped_and_relaunch_is_needed() {
    let b = BrowserHandle { port: 9222, launch_seq: 1 };
    let mut state = BrowserState::new(0);
    state.begin_acquire(10);
    state.install(b);
    // Long after the last use, the monitor removes the pair and hands it
    // back so its process can be terminated.
    let later = 10 + IDLE_THRESHOLD_MS + 1;
    assert_eq!(state.reap(later, IDLE_THRESHOLD_MS), Some(b));
    assert!(state.browser.is_none());
    // The next acquire finds nothing: a new launch is needed.
    assert_eq!(state.begin_acquire(later + 5), None);
    let b2 = BrowserHandle { port: 9333, launch_seq: 2 };
    state.install(b2);
    assert_eq!(state.begin_acquire(later + 10), Some(b2));
}

#[test]
fn acquire_refreshes_the_idle_clock() {
    let b = BrowserHandle { port: 9222, launch_seq: 1 };
    let mut state = BrowserState::new(0);
    state.begin_acquire(0);
    state.install(b);
    // Regular use keeps the pair alive past many thresholds.
    let mut now = 0u64;
    for _ in 0..5 {
        now += IDLE_THRESHOLD_MS;
        assert_eq!(state.begin_acquire(now), Some(b));
        assert_eq!(state.reap(now + 10, IDLE_THRESHOLD_MS), None);
    }
}

#[test]
fn monitor_interval_is_a_minute() {
    assert_eq!(MONITOR_INTERVAL_MS, 60000);
    assert_eq!(IDLE_THRESHOLD_MS, 300000);
}

#[test]
fn test_drop_impl_kills_process() {
    // Releasing a tracker that owns a child asks for exactly one kill.
    let mut tracker = ProcessTracker::new_owning();
    assert!(tracker.release());
    assert!(!tracker.owns_child);
}

#[test]
fn releasing_twice_is_idempotent() {
    let mut tracker = ProcessTracker::new_owning();
    assert!(tracker.release());
    // The second release finds nothing to terminate and is a no-op.
    assert!(!tracker.release());
    assert!(!tracker.release());
}

#[test]
fn terminating_an_exited_process_is_not_fatal() {
    // A kill attempt that fails because the process already exited is
    // swallowed: the outcome is never an error.
    assert_eq!(cleanup_outcome(true, false), CleanupOutcome::AlreadyGone);
    assert_eq!(cleanup_outcome(true, true), CleanupOutcome::Terminated);
    assert_eq!(cleanup_outcome(false, true), CleanupOutcome::NotTracked);
    assert_eq!(cleanup_outcome(false, false), CleanupOutcome::NotTracked);
}
