use vstd::prelude::*;
use crate::env_override::{parse_watchdog_override, watchdog_override_spec};

verus! {

/// Heartbeats older than this (10 s, in nanoseconds) mean the frontend is gone.
pub const HEARTBEAT_DEAD_AFTER_NANOS: u64 = 10_000_000_000;

/// How long a debug build waits for the frontend's readiness signal (120 s).
pub const READY_TIMEOUT_DEBUG_NANOS: u64 = 120_000_000_000;

/// How long a release build waits for the frontend's readiness signal (20 s).
pub const READY_TIMEOUT_RELEASE_NANOS: u64 = 20_000_000_000;

/// How long to wait for the frontend's readiness signal before giving up.
pub fn ready_timeout(debug_build: bool) -> (r: u64)
    ensures
        r == (if debug_build {
            READY_TIMEOUT_DEBUG_NANOS
        } else {
            READY_TIMEOUT_RELEASE_NANOS
        }),
{
    if debug_build {
        READY_TIMEOUT_DEBUG_NANOS
    } else {
        READY_TIMEOUT_RELEASE_NANOS
    }
}

/// Time from `since` to `now` on a monotonic clock, in nanoseconds; zero when
/// `since` is later than `now`.
pub open spec fn elapsed(now: u64, since: u64) -> int {
    if now >= since {
        now - since
    } else {
        0
    }
}

/// What the watchdog asks of the overlay window after one check.
#[derive(Clone, Copy, Debug, PartialEq, Eq, Structural)]
pub enum WatchdogAction {
    /// Hide the window: heartbeats went stale.
    Hide,
    /// Show the window again: heartbeats resumed.
    Show,
    /// Hide the window and exit the app.
    Exit,
    /// Leave the window as it is.
    Idle,
}

/// The watchdog's state, as a value. Times are monotonic-clock readings in
/// nanoseconds.
pub struct WatchdogState {
    /// Whether the frontend has ever signalled readiness.
    pub ready: bool,
    /// Time of the most recent heartbeat from the frontend.
    pub last_heartbeat: Option<u64>,
    /// Whether auto-exit on liveness loss is active.
    pub enabled: bool,
    /// Whether the window was hidden because heartbeats went stale.
    pub hidden_due_to_dead: bool,
    /// Whether this is a debug build. Auto-exit is always on in a release
    /// build; only a debug build lets the setting or the tray switch it.
    pub debug_build: bool,
}

impl WatchdogState {
    /// Auto-exit is on in a release build.
    pub open spec fn wf(self) -> bool {
        !self.debug_build ==> self.enabled
    }

    /// No heartbeat yet, or the last one is older than the dead-after limit.
    pub open spec fn is_stale(self, now: u64) -> bool {
        match self.last_heartbeat {
            None => true,
            Some(t) => elapsed(now, t) > HEARTBEAT_DEAD_AFTER_NANOS,
        }
    }

    /// The state after the readiness signal at time `now`.
    pub open spec fn after_ready(self, now: u64) -> WatchdogState {
        WatchdogState {
            ready: true,
            last_heartbeat: Some(now),
            enabled: self.enabled,
            hidden_due_to_dead: self.hidden_due_to_dead,
            debug_build: self.debug_build,
        }
    }

    /// The state after a heartbeat at time `now`.
    pub open spec fn after_heartbeat(self, now: u64) -> WatchdogState {
        WatchdogState {
            ready: self.ready,
            last_heartbeat: Some(now),
            enabled: self.enabled,
            hidden_due_to_dead: self.hidden_due_to_dead,
            debug_build: self.debug_build,
        }
    }

    /// The state with auto-exit set to `enabled`.
    pub open spec fn with_enabled(self, enabled: bool) -> WatchdogState {
        WatchdogState {
            ready: self.ready,
            last_heartbeat: self.last_heartbeat,
            enabled,
            hidden_due_to_dead: self.hidden_due_to_dead,
            debug_build: self.debug_build,
        }
    }

    /// The state after asking for auto-exit to be `enabled`: a debug build
    /// takes it, a release build keeps auto-exit on.
    pub open spec fn switch_enabled(self, enabled: bool) -> WatchdogState {
        if self.debug_build {
            self.with_enabled(enabled)
        } else {
            self
        }
    }

    /// The action on a fatal frontend error: exit when auto-exit is on.
    pub open spec fn on_fatal(self) -> WatchdogAction {
        if self.enabled {
            WatchdogAction::Exit
        } else {
            WatchdogAction::Idle
        }
    }

    /// The state with `hidden_due_to_dead` set to `hidden`.
    pub open spec fn with_hidden(self, hidden: bool) -> WatchdogState {
        WatchdogState {
            ready: self.ready,
            last_heartbeat: self.last_heartbeat,
            enabled: self.enabled,
            hidden_due_to_dead: hidden,
            debug_build: self.debug_build,
        }
    }

    /// One check at time `now` of a watchdog started at `started`: the next
    /// state and the action. Before readiness the app exits once the wait
    /// exceeds `ready_timeout`. After it, stale heartbeats exit the app when
    /// auto-exit is on and otherwise hide the window once; fresh heartbeats
    /// show a window that was hidden for staleness.
    pub open spec fn decide(self, started: u64, now: u64, ready_timeout: u64) -> (
        WatchdogState,
        WatchdogAction,
    ) {
        if !self.ready {
            if elapsed(now, started) > ready_timeout {
                (self, WatchdogAction::Exit)
            } else {
                (self, WatchdogAction::Idle)
            }
        } else if self.is_stale(now) {
            if self.enabled {
                (self.with_hidden(true), WatchdogAction::Exit)
            } else if !self.hidden_due_to_dead {
                (self.with_hidden(true), WatchdogAction::Hide)
            } else {
                (self, WatchdogAction::Idle)
            }
        } else if self.hidden_due_to_dead {
            (self.with_hidden(false), WatchdogAction::Show)
        } else {
            (self, WatchdogAction::Idle)
        }
    }
}

/// The overlay's liveness watchdog: readiness, heartbeats and the auto-exit
/// switch, and the decision taken on each periodic check.
pub struct Watchdog {
    ready: bool,
    last_heartbeat: Option<u64>,
    enabled: bool,
    hidden_due_to_dead: bool,
    debug_build: bool,
}

impl View for Watchdog {
    type V = WatchdogState;

    closed spec fn view(&self) -> WatchdogState {
        WatchdogState {
            ready: self.ready,
            last_heartbeat: self.last_heartbeat,
            enabled: self.enabled,
            hidden_due_to_dead: self.hidden_due_to_dead,
            debug_build: self.debug_build,
        }
    }
}

impl Watchdog {
    #[verifier::type_invariant]
    spec fn inv(self) -> bool {
        !self.debug_build ==> self.enabled
    }

    /// A watchdog that has seen nothing yet. Auto-exit is on in release builds
    /// and off in debug builds.
    pub fn new(debug_build: bool) -> (r: Self)
        ensures
            r@ == (WatchdogState {
                ready: false,
                last_heartbeat: None,
                enabled: !debug_build,
                hidden_due_to_dead: false,
                debug_build,
            }),
    {
        Watchdog {
            ready: false,
            last_heartbeat: None,
            enabled: !debug_build,
            hidden_due_to_dead: false,
            debug_build,
        }
    }

    /// Apply the launch-time override in a debug build: `value` is the
    /// setting's text, `None` when it is not set. A value that names no
    /// override changes nothing, and a release build keeps auto-exit on.
    pub fn apply_env(&mut self, value: Option<&str>)
        ensures
            final(self)@ == (match value {
                Some(v) => match watchdog_override_spec(v@) {
                    Some(enabled) => old(self)@.switch_enabled(enabled),
                    None => old(self)@,
                },
                None => old(self)@,
            }),
    {
        if let Some(v) = value {
            if let Some(enabled) = parse_watchdog_override(v) {
                self.set_enabled(enabled);
            }
        }
    }

    /// Whether auto-exit on liveness loss is active; always in a release build.
    pub fn is_enabled(&self) -> (r: bool)
        ensures
            r == self@.enabled,
            self@.wf(),
    {
        proof {
            use_type_invariant(self);
        }
        self.enabled
    }

    /// Whether this watchdog was made for a debug build.
    pub fn is_debug_build(&self) -> (r: bool)
        ensures
            r == self@.debug_build,
    {
        self.debug_build
    }

    /// Turn auto-exit on liveness loss on or off, in a debug build; a release
    /// build keeps it on.
    pub fn set_enabled(&mut self, enabled: bool)
        ensures
            final(self)@ == old(self)@.switch_enabled(enabled),
    {
        proof {
            use_type_invariant(&*self);
        }
        if self.debug_build {
            self.enabled = enabled;
        }
    }

    /// What to do on a fatal frontend error: exit when auto-exit is on (always
    /// in a release build), otherwise leave the overlay as it is.
    pub fn on_fatal(&self) -> (r: WatchdogAction)
        ensures
            r == self@.on_fatal(),
    {
        if self.enabled {
            WatchdogAction::Exit
        } else {
            WatchdogAction::Idle
        }
    }

    /// Record the frontend's readiness signal at time `now`. Returns `true`
    /// the first time, so the caller knows to show the still hidden window.
    pub fn mark_ready(&mut self, now: u64) -> (r: bool)
        ensures
            r == !old(self)@.ready,
            final(self)@ == old(self)@.after_ready(now),
    {
        proof {
            use_type_invariant(&*self);
        }
        let first = !self.ready;
        self.ready = true;
        self.last_heartbeat = Some(now);
        first
    }

    /// Record a heartbeat from the frontend at time `now`.
    pub fn heartbeat(&mut self, now: u64)
        ensures
            final(self)@ == old(self)@.after_heartbeat(now),
    {
        proof {
            use_type_invariant(&*self);
        }
        self.last_heartbeat = Some(now);
    }

    /// One periodic check at time `now` of a watchdog thread started at
    /// `started`, waiting at most `ready_timeout` for readiness.
    pub fn decide(&mut self, started: u64, now: u64, ready_timeout: u64) -> (r: WatchdogAction)
        ensures
            (final(self)@, r) == old(self)@.decide(started, now, ready_timeout),
    {
        proof {
            use_type_invariant(&*self);
        }
        let since_start = if now >= started {
            now - started
        } else {
            0
        };
        if !self.ready {
            if since_start > ready_timeout {
                WatchdogAction::Exit
            } else {
                WatchdogAction::Idle
            }
        } else {
            let stale = match self.last_heartbeat {
                None => true,
                Some(t) => {
                    let since_beat = if now >= t {
                        now - t
                    } else {
                        0
                    };
                    since_beat > HEARTBEAT_DEAD_AFTER_NANOS
                },
            };
            if stale {
                if self.enabled {
                    self.hidden_due_to_dead = true;
                    WatchdogAction::Exit
                } else if !self.hidden_due_to_dead {
                    self.hidden_due_to_dead = true;
                    WatchdogAction::Hide
                } else {
                    WatchdogAction::Idle
                }
            } else if self.hidden_due_to_dead {
                self.hidden_due_to_dead = false;
                WatchdogAction::Show
            } else {
                WatchdogAction::Idle
            }
        }
    }
}

/// Readiness is permanent: no heartbeat, check or switch of auto-exit undoes
/// it, so `mark_ready` returns `true` only the first time.
pub proof fn lemma_ready_is_permanent(
    s: WatchdogState,
    t: u64,
    started: u64,
    now: u64,
    ready_timeout: u64,
    enabled: bool,
)
    requires
        s.ready,
    ensures
        s.after_heartbeat(t).ready,
        s.after_ready(t).ready,
        s.switch_enabled(enabled).ready,
        s.decide(started, now, ready_timeout).0.ready,
{
}

/// Show-on-ready: before the readiness signal a check never shows or hides
/// the window and changes nothing; it exits exactly when the wait for
/// readiness has exceeded the timeout.
pub proof fn lemma_no_show_before_ready(
    s: WatchdogState,
    started: u64,
    now: u64,
    ready_timeout: u64,
)
    requires
        !s.ready,
    ensures
        s.decide(started, now, ready_timeout).0 == s,
        s.decide(started, now, ready_timeout).1 == WatchdogAction::Exit || s.decide(
            started,
            now,
            ready_timeout,
        ).1 == WatchdogAction::Idle,
        s.decide(started, now, ready_timeout).1 == WatchdogAction::Exit <==> elapsed(now, started)
            > ready_timeout,
{
}

/// A fresh heartbeat (or readiness signal) keeps the window up: a check within
/// the dead-after limit of it neither hides the window nor exits, and shows
/// the window again if it was hidden for staleness.
pub proof fn lemma_fresh_heartbeat_keeps_window(
    s: WatchdogState,
    t: u64,
    started: u64,
    now: u64,
    ready_timeout: u64,
)
    requires
        s.ready,
        t <= now,
        now - t <= HEARTBEAT_DEAD_AFTER_NANOS,
    ensures
        ({
            let (next, action) = s.after_heartbeat(t).decide(started, now, ready_timeout);
            &&& action != WatchdogAction::Hide
            &&& action != WatchdogAction::Exit
            &&& !next.hidden_due_to_dead
            &&& (action == WatchdogAction::Show <==> s.hidden_due_to_dead)
        }),
        ({
            let (next, action) = s.after_ready(t).decide(started, now, ready_timeout);
            &&& action != WatchdogAction::Hide
            &&& action != WatchdogAction::Exit
            &&& !next.hidden_due_to_dead
            &&& (action == WatchdogAction::Show <==> s.hidden_due_to_dead)
        }),
{
}

/// Stale heartbeats after readiness leave no visible window: the check exits
/// when auto-exit is on, hides the window otherwise unless it is hidden
/// already, and the window counts as hidden afterwards.
pub proof fn lemma_stale_heartbeat_hides(
    s: WatchdogState,
    started: u64,
    now: u64,
    ready_timeout: u64,
)
    requires
        s.ready,
        s.is_stale(now),
    ensures
        s.decide(started, now, ready_timeout).0.hidden_due_to_dead,
        s.decide(started, now, ready_timeout).1 == WatchdogAction::Exit <==> s.enabled,
        s.decide(started, now, ready_timeout).1 == WatchdogAction::Hide <==> !s.enabled
            && !s.hidden_due_to_dead,
        s.decide(started, now, ready_timeout).1 != WatchdogAction::Show,
{
}

/// Hide and show alternate: a check hides only a window that is not hidden
/// for staleness and shows only one that is, so neither is ever repeated;
/// a check that does nothing keeps that flag.
pub proof fn lemma_hide_and_show_alternate(
    s: WatchdogState,
    started: u64,
    now: u64,
    ready_timeout: u64,
)
    ensures
        ({
            let (next, action) = s.decide(started, now, ready_timeout);
            &&& action == WatchdogAction::Hide ==> !s.hidden_due_to_dead && next.hidden_due_to_dead
            &&& action == WatchdogAction::Show ==> s.hidden_due_to_dead && !next.hidden_due_to_dead
            &&& action == WatchdogAction::Idle ==> next == s
            &&& next.ready == s.ready && next.enabled == s.enabled && next.last_heartbeat
                == s.last_heartbeat
        }),
{
}

/// The app exits only when readiness never came in time, or when heartbeats
/// went stale with auto-exit on: with auto-exit off (the debug default) a
/// ready overlay is never exited by the watchdog.
pub proof fn lemma_exit_only_on_timeout_or_enabled(
    s: WatchdogState,
    started: u64,
    now: u64,
    ready_timeout: u64,
)
    ensures
        s.decide(started, now, ready_timeout).1 == WatchdogAction::Exit ==> (!s.ready && elapsed(
            now,
            started,
        ) > ready_timeout) || (s.ready && s.enabled && s.is_stale(now)),
{
}

/// In a release build auto-exit stays on: a new watchdog has it on, and
/// neither the launch setting, the tray switch, readiness, heartbeats nor
/// checks turn it off. So a release build never just hides on stale
/// heartbeats, and a fatal frontend error always exits.
pub proof fn lemma_release_keeps_auto_exit(
    s: WatchdogState,
    t: u64,
    started: u64,
    now: u64,
    ready_timeout: u64,
    enabled: bool,
)
    requires
        s.wf(),
    ensures
        s.switch_enabled(enabled).wf(),
        s.after_ready(t).wf(),
        s.after_heartbeat(t).wf(),
        s.decide(started, now, ready_timeout).0.wf(),
        !s.debug_build ==> s.decide(started, now, ready_timeout).1 != WatchdogAction::Hide,
        !s.debug_build ==> s.on_fatal() == WatchdogAction::Exit,
        !s.debug_build ==> s.switch_enabled(enabled).enabled,
{
}

/// The readiness signal and heartbeats record the time they came and touch
/// nothing else; the readiness signal also marks the frontend ready. The
/// auto-exit switch is taken in a debug build and ignored in a release build,
/// and a fatal frontend error exits exactly when auto-exit is on.
pub proof fn lemma_signals_and_switches(s: WatchdogState, t: u64, enabled: bool)
    ensures
        s.after_ready(t).ready,
        s.after_ready(t).last_heartbeat == Some(t),
        s.after_ready(t).enabled == s.enabled,
        s.after_ready(t).hidden_due_to_dead == s.hidden_due_to_dead,
        s.after_ready(t).debug_build == s.debug_build,
        s.after_heartbeat(t).ready == s.ready,
        s.after_heartbeat(t).last_heartbeat == Some(t),
        s.after_heartbeat(t).enabled == s.enabled,
        s.after_heartbeat(t).hidden_due_to_dead == s.hidden_due_to_dead,
        s.after_heartbeat(t).debug_build == s.debug_build,
        s.switch_enabled(enabled).enabled == (if s.debug_build {
            enabled
        } else {
            s.enabled
        }),
        s.switch_enabled(enabled).ready == s.ready,
        s.switch_enabled(enabled).last_heartbeat == s.last_heartbeat,
        s.switch_enabled(enabled).hidden_due_to_dead == s.hidden_due_to_dead,
        s.switch_enabled(enabled).debug_build == s.debug_build,
        s.on_fatal() == WatchdogAction::Exit <==> s.enabled,
        s.on_fatal() != WatchdogAction::Exit ==> s.on_fatal() == WatchdogAction::Idle,
{
}

/// The limits are 10 s for heartbeats, 120 s for readiness in a debug build
/// and 20 s in a release build, in nanoseconds.
pub proof fn lemma_limits()
    ensures
        HEARTBEAT_DEAD_AFTER_NANOS == 10_000_000_000u64,
        READY_TIMEOUT_DEBUG_NANOS == 120_000_000_000u64,
        READY_TIMEOUT_RELEASE_NANOS == 20_000_000_000u64,
{
}

/// Elapsed time is the plain clock difference, with no cap, and zero for a
/// reading that lies before its reference.
pub proof fn lemma_elapsed_is_difference(now: u64, since: u64)
    ensures
        now >= since ==> elapsed(now, since) == now - since,
        now < since ==> elapsed(now, since) == 0,
{
}

/// Staleness is pinned to the clock: with no heartbeat the frontend counts as
/// gone; with a heartbeat at `t`, it is stale exactly when `now` lies more than
/// 10 s after `t`, however long ago that was.
pub proof fn lemma_stale_exactly_after_limit(s: WatchdogState, now: u64)
    ensures
        s.last_heartbeat is None ==> s.is_stale(now),
        s.last_heartbeat matches Some(t) ==> (s.is_stale(now) <==> (t <= now && now - t
            > 10_000_000_000)),
{
}

/// A check decides by the clock alone, with no cap on waiting times:
/// - before readiness it exits exactly when more than `ready_timeout` has
///   passed since `started`, and otherwise does nothing;
/// - after readiness, with `stale` meaning no heartbeat or the last one more
///   than 10 s before `now`: stale heartbeats exit with auto-exit on, hide a
///   window not yet hidden, and otherwise do nothing; fresh heartbeats show a
///   window hidden for staleness and otherwise do nothing.
/// In particular a window hidden for staleness is never shown while the last
/// heartbeat is older than the limit.
pub proof fn lemma_decide_by_clock(s: WatchdogState, started: u64, now: u64, ready_timeout: u64)
    ensures
        ({
            let action = s.decide(started, now, ready_timeout).1;
            let stale = match s.last_heartbeat {
                None => true,
                Some(t) => t <= now && now - t > 10_000_000_000,
            };
            &&& !s.ready ==> (action == (if started <= now && now - started > ready_timeout {
                WatchdogAction::Exit
            } else {
                WatchdogAction::Idle
            }))
            &&& s.ready && stale ==> action == (if s.enabled {
                WatchdogAction::Exit
            } else if !s.hidden_due_to_dead {
                WatchdogAction::Hide
            } else {
                WatchdogAction::Idle
            })
            &&& s.ready && !stale ==> action == (if s.hidden_due_to_dead {
                WatchdogAction::Show
            } else {
                WatchdogAction::Idle
            })
            &&& action == WatchdogAction::Show ==> s.ready && !stale
        }),
{
}

} // verus!
