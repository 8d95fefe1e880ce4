//! The cash-drawer status monitor: a state machine owning the lifecycle of
//! one background polling loop, plus the change detection that decides which
//! poll results are worth reporting.
//!
//! The machine itself performs no waiting and no device I/O. The host runs
//! the loop: `start` and `stop` return the action to perform (spawn the loop,
//! signal it to cancel), and each poll result is handed back through
//! `observe_poll`, which says whether an event is due. Restarting while
//! running is rejected rather than replacing the interval, so a stop is
//! always explicit and no polling task is silently orphaned.

use vstd::prelude::*;
use crate::error::{ErrorKind, PrinterError};
use vstd::string::*;

verus! {

/// One sampled drawer state, compared against the previous sample to detect
/// a transition worth reporting.
#[derive(Clone, Copy, PartialEq, Eq, Structural, Debug)]
pub struct StatusSnapshot {
    pub drawer_open: bool,
}

/// The monitor's lifecycle: stopped, or running one poll loop at the given
/// interval.
#[derive(Clone, Copy, PartialEq, Eq, Structural, Debug)]
pub enum MonitorState {
    Stopped,
    Running { interval_ms: u64 },
}

/// What the host must do after a lifecycle call: nothing, spawn exactly one
/// recurring poll loop, or signal the running loop to cancel and wait for it
/// to exit.
#[derive(Clone, Copy, PartialEq, Eq, Structural, Debug)]
pub enum MonitorAction {
    NoAction,
    SpawnPollLoop { interval_ms: u64 },
    CancelPollLoop,
}

/// What a poll cycle asks the host to emit: nothing, a drawer-status-changed
/// event with the new snapshot, or a monitor-poll-error event. A poll failure
/// never stops the monitor.
#[derive(Clone, Debug)]
pub enum PollEvent {
    NoEvent,
    DrawerStatusChanged(StatusSnapshot),
    PollError(PrinterError),
}

/// The polling interval used when a start request supplies none.
pub const DEFAULT_POLL_INTERVAL_MS: u64 = 1000;

/// Whether a requested interval is acceptable: absent, or positive.
pub open spec fn valid_interval(interval_ms: Option<i64>) -> bool {
    match interval_ms {
        Option::None => true,
        Option::Some(v) => v > 0,
    }
}

/// The interval a start request asks for, with the default filled in.
pub open spec fn effective_interval(interval_ms: Option<i64>) -> u64
    recommends
        valid_interval(interval_ms),
{
    match interval_ms {
        Option::None => DEFAULT_POLL_INTERVAL_MS,
        Option::Some(v) => v as u64,
    }
}

/// The monitor: its lifecycle state and the last snapshot a poll stored.
pub struct CashDrawerMonitor {
    pub state: MonitorState,
    pub last_snapshot: Option<StatusSnapshot>,
}

/// The monitor after a successful poll: the sampled snapshot is stored
/// whether or not it changed, and the lifecycle state is untouched.
pub open spec fn after_poll(m: CashDrawerMonitor, s: StatusSnapshot) -> CashDrawerMonitor {
    (CashDrawerMonitor { state: m.state, last_snapshot: Option::Some(s) })
}

impl CashDrawerMonitor {
    /// Whether one poll loop is currently running.
    pub open spec fn is_running(self) -> bool {
        self.state is Running
    }

    /// Whether a poll returning this snapshot must emit a
    /// drawer-status-changed event: only when a previous snapshot exists and
    /// differs. The first sample after a start establishes the baseline
    /// silently.
    pub open spec fn poll_would_emit(self, s: StatusSnapshot) -> bool {
        match self.last_snapshot {
            Option::Some(p) => p != s,
            Option::None => false,
        }
    }

    /// A fresh monitor: stopped, with no snapshot stored.
    pub fn new() -> (m: CashDrawerMonitor)
        ensures
            m.state == MonitorState::Stopped,
            m.last_snapshot is None,
    {
        CashDrawerMonitor { state: MonitorState::Stopped, last_snapshot: Option::None }
    }

    /// Starts the monitor.
    ///
    /// While running, a second start is rejected with `AlreadyRunning` and
    /// changes nothing: an explicit stop is required before a restart. A
    /// supplied interval must be positive, else `InvalidInterval`; absent,
    /// the default applies. On success the monitor transitions to running,
    /// forgets any stale snapshot, and asks the host to spawn exactly one
    /// poll loop at the effective interval.
    pub fn start(&mut self, interval_ms: Option<i64>) -> (r: Result<MonitorAction, PrinterError>)
        ensures
            r is Ok <==> !old(self).is_running() && valid_interval(interval_ms),
            old(self).is_running() ==> r is Err && r->Err_0.kind == ErrorKind::AlreadyRunning
                && *final(self) == *old(self),
            !old(self).is_running() && !valid_interval(interval_ms) ==> r is Err
                && r->Err_0.kind == ErrorKind::InvalidInterval && *final(self) == *old(self),
            r is Ok ==> final(self).state == (MonitorState::Running {
                interval_ms: effective_interval(interval_ms),
            }) && final(self).last_snapshot is None && r->Ok_0 == (MonitorAction::SpawnPollLoop {
                interval_ms: effective_interval(interval_ms),
            }),
    {
        match self.state {
            MonitorState::Running { .. } => Err(
                PrinterError::new(
                    ErrorKind::AlreadyRunning,
                    String::from_str("cash drawer monitor is already running"),
                ),
            ),
            MonitorState::Stopped => {
                let interval: u64 = match interval_ms {
                    Option::None => DEFAULT_POLL_INTERVAL_MS,
                    Option::Some(v) => {
                        if v <= 0 {
                            return Err(
                                PrinterError::new(
                                    ErrorKind::InvalidInterval,
                                    String::from_str("polling interval must be positive"),
                                ),
                            );
                        }
                        v as u64
                    },
                };
                self.state = MonitorState::Running { interval_ms: interval };
                self.last_snapshot = Option::None;
                Ok(MonitorAction::SpawnPollLoop { interval_ms: interval })
            },
        }
    }

    /// Stops the monitor.
    ///
    /// While running, transitions to stopped and asks the host to cancel the
    /// poll loop and wait for it to exit, so no task outlives the call.
    /// Already stopped, it is a no-op. The stored snapshot is kept either
    /// way.
    pub fn stop(&mut self) -> (r: MonitorAction)
        ensures
            final(self).state == MonitorState::Stopped,
            final(self).last_snapshot == old(self).last_snapshot,
            old(self).is_running() ==> r == MonitorAction::CancelPollLoop,
            !old(self).is_running() ==> r == MonitorAction::NoAction && *final(self) == *old(self),
    {
        match self.state {
            MonitorState::Running { .. } => {
                self.state = MonitorState::Stopped;
                MonitorAction::CancelPollLoop
            },
            MonitorState::Stopped => MonitorAction::NoAction,
        }
    }

    /// Stops the monitor because the device is being disconnected: polling
    /// must never continue against a device no longer connected.
    pub fn on_disconnect(&mut self) -> (r: MonitorAction)
        ensures
            final(self).state == MonitorState::Stopped,
            final(self).last_snapshot == old(self).last_snapshot,
            old(self).is_running() ==> r == MonitorAction::CancelPollLoop,
            !old(self).is_running() ==> r == MonitorAction::NoAction && *final(self) == *old(self),
    {
        self.stop()
    }

    /// Records the outcome of one poll cycle and says what to emit.
    ///
    /// A successful poll always stores the sampled snapshot, and asks for a
    /// drawer-status-changed event exactly when a previous snapshot exists
    /// and differs. A failed poll changes nothing and asks for a
    /// monitor-poll-error event carrying the failure: the loop continues at
    /// the next interval.
    pub fn observe_poll(&mut self, outcome: Result<StatusSnapshot, PrinterError>) -> (ev:
        PollEvent)
        ensures
            final(self).state == old(self).state,
            outcome matches Ok(s) ==> *final(self) == after_poll(*old(self), s) && (ev
                == if old(self).poll_would_emit(s) {
                PollEvent::DrawerStatusChanged(s)
            } else {
                PollEvent::NoEvent
            }),
            outcome matches Err(e) ==> *final(self) == *old(self) && ev == PollEvent::PollError(e),
    {
        match outcome {
            Ok(s) => {
                let changed = match self.last_snapshot {
                    Option::Some(p) => p != s,
                    Option::None => false,
                };
                self.last_snapshot = Option::Some(s);
                if changed {
                    PollEvent::DrawerStatusChanged(s)
                } else {
                    PollEvent::NoEvent
                }
            },
            Err(e) => PollEvent::PollError(e),
        }
    }
}

/// Law: when consecutive polls sample the same status twice and then a
/// different one, exactly one drawer-status-changed event is due, on the
/// transition — the repeated sample and the baseline sample emit nothing.
pub proof fn lemma_single_event_per_transition(
    m: CashDrawerMonitor,
    a: StatusSnapshot,
    b: StatusSnapshot,
)
    requires
        m.last_snapshot is None,
        a != b,
    ensures
        !m.poll_would_emit(a),
        !after_poll(m, a).poll_would_emit(a),
        after_poll(after_poll(m, a), a).poll_would_emit(b),
{
}

} // verus!
