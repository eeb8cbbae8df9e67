//! Session lifecycle: at most one live browser-and-multiplexer pair, shared
//! by concurrent callers, created lazily and discarded after inactivity.
//!
//! The callers hold this state behind their own lock; every transition here
//! is one atomic step under that lock, verified against the relations below.
//! Times are moments in milliseconds from a monotonic clock the callers read.

use vstd::prelude::*;

verus! {

/// How long a pair may sit unused before the monitor discards it.
pub const IDLE_THRESHOLD_MS: u64 = 300000;

/// How often the background monitor wakes, in milliseconds.
pub const MONITOR_INTERVAL_MS: u64 = 60000;

/// The identity of one live browser-and-multiplexer pair: the control port
/// and a launch sequence number that tells distinct launches apart.
#[derive(Clone, Copy, Debug, PartialEq, Eq, Structural)]
pub struct BrowserHandle {
    /// The control port the pair listens on.
    pub port: u16,
    /// Which launch produced this pair; never reused within a session.
    pub launch_seq: u64,
}

/// The guarded session state: zero or one live pair, and when it was last
/// used. A session with `browser == None` tracks no live child process.
pub struct BrowserState {
    /// The live pair, if one exists.
    pub browser: Option<BrowserHandle>,
    /// The moment of last use, in milliseconds.
    pub last_used: u64,
}

/// How an acquire step transforms the state: the moment of last use becomes
/// now (before anything else, so a concurrent reaper cannot observe a stale
/// idle timestamp mid-acquire), the pair is untouched, and the caller learns
/// the existing pair or that one must be created.
pub open spec fn acquire_rel(
    pre: BrowserState,
    post: BrowserState,
    now: u64,
    r: Option<BrowserHandle>,
) -> bool {
    &&& post.browser == pre.browser
    &&& post.last_used == now
    &&& r == pre.browser
}

/// How installing a freshly created pair transforms the state.
pub open spec fn install_rel(pre: BrowserState, post: BrowserState, b: BrowserHandle) -> bool {
    &&& post.browser == Some(b)
    &&& post.last_used == pre.last_used
}

/// Whether the pair has sat unused beyond the threshold at moment `now`.
pub open spec fn idle_expired(s: BrowserState, now: u64, idle_ms: u64) -> bool {
    now > s.last_used && now - s.last_used > idle_ms
}

/// How one wake of the idle monitor transforms the state: an expired pair is
/// removed and handed back for termination; otherwise nothing changes.
pub open spec fn reap_rel(
    pre: BrowserState,
    post: BrowserState,
    now: u64,
    idle_ms: u64,
    r: Option<BrowserHandle>,
) -> bool {
    if pre.browser is Some && idle_expired(pre, now, idle_ms) {
        &&& r == pre.browser
        &&& post.browser is None
        &&& post.last_used == pre.last_used
    } else {
        r is None && post == pre
    }
}

impl BrowserState {
    /// A fresh session: no pair, last used at the given moment.
    pub fn new(now: u64) -> (r: BrowserState)
        ensures
            r.browser is None,
            r.last_used == now,
    {
        BrowserState { browser: None, last_used: now }
    }

    /// Begin an acquire: mark the session used now and report the existing
    /// pair, or `None` when one must be created and installed.
    pub fn begin_acquire(&mut self, now: u64) -> (r: Option<BrowserHandle>)
        ensures
            acquire_rel(*old(self), *final(self), now, r),
    {
        self.last_used = now;
        self.browser
    }

    /// Install the freshly created pair after a `begin_acquire` returned
    /// `None`. Nothing may already be installed: a failed creation must not
    /// leave a half-initialized pair visible, so installation happens once,
    /// with the finished pair.
    pub fn install(&mut self, b: BrowserHandle)
        requires
            old(self).browser is None,
        ensures
            install_rel(*old(self), *final(self), b),
    {
        self.browser = Some(b);
    }

    /// One wake of the idle monitor: discard and hand back the pair if it
    /// has been idle beyond the threshold, else leave everything unchanged.
    /// The caller must terminate the returned pair's process.
    pub fn reap(&mut self, now: u64, idle_ms: u64) -> (r: Option<BrowserHandle>)
        ensures
            reap_rel(*old(self), *final(self), now, idle_ms, r),
    {
        if self.browser.is_some() && now > self.last_used && now - self.last_used > idle_ms {
            let b = self.browser;
            self.browser = None;
            b
        } else {
            None
        }
    }
}

/// Session reuse: once a pair is live, an acquire hands it out; a monitor
/// wake within the idle threshold of the last use terminates nothing and
/// leaves the pair in place; and a later acquire hands out the same pair —
/// no second launch.
pub proof fn lemma_session_reuse(
    s0: BrowserState,
    s1: BrowserState,
    s2: BrowserState,
    s3: BrowserState,
    t1: u64,
    t2: u64,
    t3: u64,
    idle_ms: u64,
    r1: Option<BrowserHandle>,
    r2: Option<BrowserHandle>,
    r3: Option<BrowserHandle>,
    b: BrowserHandle,
)
    requires
        s0.browser == Some(b),
        acquire_rel(s0, s1, t1, r1),
        reap_rel(s1, s2, t2, idle_ms, r2),
        t1 <= t2 <= t1 + idle_ms,
        acquire_rel(s2, s3, t3, r3),
    ensures
        r1 == Some(b),
        r2 is None,
        s2.browser == Some(b),
        r3 == Some(b),
{
}

/// Idle expiry: a monitor wake past the idle threshold removes the pair and
/// hands it back for termination, and the next acquire finds no pair, so a
/// new launch is needed.
pub proof fn lemma_idle_expiry(
    s0: BrowserState,
    s1: BrowserState,
    s2: BrowserState,
    t2: u64,
    t3: u64,
    idle_ms: u64,
    r2: Option<BrowserHandle>,
    r3: Option<BrowserHandle>,
    b: BrowserHandle,
)
    requires
        s0.browser == Some(b),
        t2 > s0.last_used,
        t2 - s0.last_used > idle_ms,
        reap_rel(s0, s1, t2, idle_ms, r2),
        acquire_rel(s1, s2, t3, r3),
    ensures
        r2 == Some(b),
        s1.browser is None,
        r3 is None,
{
}

/// Tracking of one child process: whether this session still owns a live
/// handle that must be terminated on release.
pub struct ProcessTracker {
    /// Whether a child process is still owned and live.
    pub owns_child: bool,
}

/// How releasing the process transforms the tracker: afterwards nothing is
/// owned, and a termination is attempted exactly when one was.
pub open spec fn release_rel(pre: ProcessTracker, post: ProcessTracker, kill: bool) -> bool {
    &&& !post.owns_child
    &&& kill == pre.owns_child
}

/// What cleanup reports. Termination is best-effort: no variant is fatal,
/// whatever the process did in the meantime.
#[derive(Clone, Copy, Debug, PartialEq, Eq, Structural)]
pub enum CleanupOutcome {
    /// The child was terminated by this release.
    Terminated,
    /// The child had already exited; the failed kill is swallowed.
    AlreadyGone,
    /// No child was owned; nothing to do.
    NotTracked,
}

impl ProcessTracker {
    /// A tracker that owns a freshly spawned child.
    pub fn new_owning() -> (r: ProcessTracker)
        ensures
            r.owns_child,
    {
        ProcessTracker { owns_child: true }
    }

    /// Release the child: say whether a termination must be attempted, and
    /// track nothing afterwards.
    pub fn release(&mut self) -> (kill: bool)
        ensures
            release_rel(*old(self), *final(self), kill),
    {
        let kill = self.owns_child;
        self.owns_child = false;
        kill
    }
}

/// What one cleanup reports, given whether a child was owned and whether
/// the kill attempt succeeded. Total: every combination yields an outcome and
/// none is an error — terminating an already-exited process is not fatal.
pub fn cleanup_outcome(was_owned: bool, kill_ok: bool) -> (r: CleanupOutcome)
    ensures
        r == (if !was_owned {
            CleanupOutcome::NotTracked
        } else if kill_ok {
            CleanupOutcome::Terminated
        } else {
            CleanupOutcome::AlreadyGone
        }),
{
    if !was_owned {
        CleanupOutcome::NotTracked
    } else if kill_ok {
        CleanupOutcome::Terminated
    } else {
        CleanupOutcome::AlreadyGone
    }
}

/// Idempotent cleanup: after one release nothing is owned, so a second
/// release attempts no termination — releasing an already-released (or
/// already-exited) process handle is a no-op, never a fatal error.
pub proof fn lemma_cleanup_idempotent(
    s0: ProcessTracker,
    s1: ProcessTracker,
    s2: ProcessTracker,
    k1: bool,
    k2: bool,
)
    requires
        release_rel(s0, s1, k1),
        release_rel(s1, s2, k2),
    ensures
        !k2,
        !s2.owns_child,
{
}

} // verus!
