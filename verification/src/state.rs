//! Per-target mutable state and the transition functions of the
//! notification state machine.

use vstd::prelude::*;

use crate::alerts::AlertState;

verus! {

/// How often a repeat schedule re-checks and re-sends: forever, or a fixed
/// number of times. `Finite(n)` with `n >= 1` means the initial dispatch
/// plus `n - 1` repeat checks.
#[derive(Clone, Copy, Debug, PartialEq, Eq, Structural)]
pub enum Retry {
    Infinite,
    Finite(usize),
}

impl Default for Retry {
    /// A target repeats once (initial dispatch only) unless configured
    /// otherwise.
    fn default() -> (r: Self)
        ensures
            r == Retry::Finite(1usize),
    {
        Retry::Finite(1)
    }
}

/// Mutable per-target record shared between the foreground `call` path and
/// the background repeat schedule.
///
/// Invariant (see [`TimeoutState::wf`]): `awaiting_resolve ==> timed_out`.
#[derive(Clone, Copy, Debug, PartialEq, Eq, Structural)]
pub struct TimeoutState {
    /// Last observed alert state.
    pub alert_state: AlertState,
    /// A repeat timer is currently active.
    pub timed_out: bool,
    /// The next resolve/silence has not yet been forwarded during the
    /// active timer window.
    pub awaiting_resolve: bool,
}

impl TimeoutState {
    /// The state of a target that has never seen an event, and of one whose
    /// repeat schedule has ended.
    pub open spec fn spec_default() -> TimeoutState {
        TimeoutState { alert_state: AlertState::Resolved, timed_out: false, awaiting_resolve: false }
    }

    /// A resolve can only be pending while a timer window is open.
    pub open spec fn wf(self) -> bool {
        self.awaiting_resolve ==> self.timed_out
    }
}

impl Default for TimeoutState {
    fn default() -> (r: Self)
        ensures
            r == TimeoutState::spec_default(),
    {
        TimeoutState { alert_state: AlertState::Resolved, timed_out: false, awaiting_resolve: false }
    }
}

/// Repeat policy of a target: how long a timer window lasts and how many
/// times the schedule runs. The serialized field name is `repeat`.
#[derive(Clone, Copy, Debug, PartialEq, Eq, Structural)]
pub struct Timeout {
    /// Length of one timer window, in milliseconds.
    pub interval: u64,
    /// Finite or infinite repetition.
    pub times: Retry,
    /// The shared per-target state the windows operate on.
    pub state: TimeoutState,
}

/// Default window length: 60 seconds, in milliseconds.
pub const DEFAULT_INTERVAL_MS: u64 = 60000;

impl Timeout {
    pub open spec fn spec_default() -> Timeout {
        Timeout {
            interval: DEFAULT_INTERVAL_MS,
            times: Retry::Finite(1usize),
            state: TimeoutState::spec_default(),
        }
    }
}

impl Default for Timeout {
    fn default() -> (r: Self)
        ensures
            r == Timeout::spec_default(),
    {
        Timeout { interval: DEFAULT_INTERVAL_MS, times: Retry::Finite(1), state: TimeoutState::default() }
    }
}

/// What the state machine decides for one incoming event: whether to
/// dispatch a notification for it now, and whether to start a repeat
/// schedule for the target.
#[derive(Clone, Copy, Debug, PartialEq, Eq, Structural)]
pub struct CallAction {
    pub dispatch: bool,
    pub spawn_repeat: bool,
}

/// The successor of `s` when the state machine receives an event carrying
/// `incoming`.
///
/// * `Triggered` on an idle target opens a timer window: both flags are set.
/// * `Triggered` during a window changes nothing but the recorded state.
/// * A non-firing state during a window consumes `awaiting_resolve` if it
///   is set; outside a window it leaves the flags untouched.
pub open spec fn call_step(s: TimeoutState, incoming: AlertState) -> TimeoutState {
    if incoming == AlertState::Triggered {
        if !s.timed_out {
            TimeoutState { alert_state: incoming, timed_out: true, awaiting_resolve: true }
        } else {
            TimeoutState { alert_state: incoming, ..s }
        }
    } else {
        if s.timed_out && s.awaiting_resolve {
            TimeoutState { alert_state: incoming, awaiting_resolve: false, ..s }
        } else {
            TimeoutState { alert_state: incoming, ..s }
        }
    }
}

/// Whether the state machine dispatches a notification for an event
/// carrying `incoming` when the state is `s`: a `Triggered` only on an idle
/// target; a non-firing state unless one was already forwarded during the
/// open window.
pub open spec fn call_dispatches(s: TimeoutState, incoming: AlertState) -> bool {
    if incoming == AlertState::Triggered {
        !s.timed_out
    } else {
        !s.timed_out || s.awaiting_resolve
    }
}

/// Whether the state machine starts a repeat schedule for an event carrying
/// `incoming`: exactly when a `Triggered` lands on an idle target.
pub open spec fn call_spawns(s: TimeoutState, incoming: AlertState) -> bool {
    incoming == AlertState::Triggered && !s.timed_out
}

} // verus!
