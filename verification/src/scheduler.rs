//! The repeat schedule: what each wake-up of the background task does.
//!
//! The surrounding runtime owns the sleeping and the registry lookups; it
//! drives one [`repeat_tick`] per wake-up with what the registry answered
//! (`None` for a failed lookup) and performs the dispatch the outcome asks
//! for, with the context captured when the schedule started. A target with
//! `Retry::Finite(n)` is driven through `n - 1` ticks and then
//! [`repeat_finish`]; a target with `Retry::Infinite` is driven until a
//! tick returns [`RepeatTick::Stop`].

use vstd::prelude::*;

use crate::alerts::AlertState;
use crate::state::TimeoutState;

verus! {

/// What one wake-up of the repeat schedule decided.
#[derive(Clone, Copy, Debug, PartialEq, Eq, Structural)]
pub enum RepeatTick {
    /// The registry no longer knows the alert: the state was reset and
    /// the schedule must end.
    Stop,
    /// The alert still fires: dispatch the captured context again.
    Dispatch,
    /// The alert no longer fires: the window was closed, nothing is sent.
    Silent,
}

/// The successor of `s` for one wake-up that observed `lookup` from the
/// registry.
///
/// * A failed lookup resets the state to its default.
/// * A firing alert arms `awaiting_resolve` again: the next resolve seen
///   by the foreground path must be forwarded.
/// * A non-firing alert ends the window: both flags are cleared.
pub open spec fn tick_step(s: TimeoutState, lookup: Option<AlertState>) -> TimeoutState {
    match lookup {
        Option::None => TimeoutState::spec_default(),
        Option::Some(AlertState::Triggered) => TimeoutState { awaiting_resolve: true, ..s },
        Option::Some(_) => TimeoutState { timed_out: false, awaiting_resolve: false, ..s },
    }
}

/// What one wake-up decides: stop on a failed lookup, dispatch while the
/// alert fires, stay silent once it does not.
pub open spec fn tick_outcome(lookup: Option<AlertState>) -> RepeatTick {
    match lookup {
        Option::None => RepeatTick::Stop,
        Option::Some(AlertState::Triggered) => RepeatTick::Dispatch,
        Option::Some(_) => RepeatTick::Silent,
    }
}

/// One wake-up of the repeat schedule: applies what the registry answered
/// to the target's state and says what to do. The schedule itself never
/// sends a non-firing notification; it only re-sends `Triggered` ones.
pub fn repeat_tick(state: &mut TimeoutState, lookup: Option<AlertState>) -> (r: RepeatTick)
    ensures
        *final(state) == tick_step(*old(state), lookup),
        r == tick_outcome(lookup),
        r == RepeatTick::Stop ==> *final(state) == TimeoutState::spec_default(),
{
    match lookup {
        None => {
            *state = TimeoutState::default();
            RepeatTick::Stop
        },
        Some(AlertState::Triggered) => {
            state.awaiting_resolve = true;
            RepeatTick::Dispatch
        },
        Some(_) => {
            state.timed_out = false;
            state.awaiting_resolve = false;
            RepeatTick::Silent
        },
    }
}

/// The reset at the end of a finite repeat schedule: after the schedule
/// exits, the state equals its default.
pub fn repeat_finish(state: &mut TimeoutState)
    ensures
        *final(state) == TimeoutState::spec_default(),
{
    *state = TimeoutState::default();
}

/// A run of a finite repeat schedule, as a function of the registry
/// answers it will observe: the final state, how many sleep-and-check
/// iterations were performed, and how many dispatches they produced.
///
/// `iters` is the number of iterations still owed (`n - 1` for
/// `Retry::Finite(n)`). A failed lookup ends the run before its
/// sleep-and-check; running out of owed iterations ends it with the final
/// reset. Either way the state comes out at its default.
pub open spec fn sched_run(
    s: TimeoutState,
    lookups: Seq<Option<AlertState>>,
    iters: nat,
) -> (TimeoutState, int, int)
    decreases iters,
{
    if iters == 0 || lookups.len() == 0 {
        (TimeoutState::spec_default(), 0, 0)
    } else {
        match lookups[0] {
            Option::None => (TimeoutState::spec_default(), 0, 0),
            Option::Some(st) => {
                let next = sched_run(tick_step(s, Some(st)), lookups.drop_first(), (iters - 1) as nat);
                (
                    next.0,
                    next.1 + 1,
                    next.2 + if st == AlertState::Triggered {
                        1int
                    } else {
                        0
                    },
                )
            },
        }
    }
}

/// However a repeat schedule ends — a failed lookup, or its iterations
/// running out — the target's state equals its default afterwards.
pub proof fn lemma_scheduler_exit_resets(
    s: TimeoutState,
    lookups: Seq<Option<AlertState>>,
    iters: nat,
)
    ensures
        sched_run(s, lookups, iters).0 == TimeoutState::spec_default(),
    decreases iters,
{
    if iters != 0 && lookups.len() != 0 {
        match lookups[0] {
            Option::None => {},
            Option::Some(st) => {
                lemma_scheduler_exit_resets(
                    tick_step(s, Some(st)),
                    lookups.drop_first(),
                    (iters - 1) as nat,
                );
            },
        }
    }
}

/// How many of the first `k` registry answers report a firing alert.
pub open spec fn count_triggered(lookups: Seq<Option<AlertState>>, k: int) -> int
    decreases k,
{
    if k <= 0 {
        0
    } else {
        count_triggered(lookups, k - 1) + if lookups[k - 1] == Some(AlertState::Triggered) {
            1int
        } else {
            0
        }
    }
}

/// A finite schedule owed `iters` iterations, whose lookups all succeed,
/// performs exactly `iters` sleep-and-check iterations — for
/// `Retry::Finite(n)` that is `n - 1` — dispatches once per firing
/// answer among them, and leaves the state at its default.
pub proof fn lemma_finite_schedule_runs_out(
    s: TimeoutState,
    lookups: Seq<Option<AlertState>>,
    iters: nat,
)
    requires
        iters <= lookups.len(),
        forall|i: int| 0 <= i < iters ==> lookups[i] is Some,
    ensures
        sched_run(s, lookups, iters).0 == TimeoutState::spec_default(),
        sched_run(s, lookups, iters).1 == iters,
        sched_run(s, lookups, iters).2 == count_triggered(lookups, iters as int),
    decreases iters,
{
    if iters == 0 {
    } else {
        let st = lookups[0]->Some_0;
        let rest = lookups.drop_first();
        lemma_finite_schedule_runs_out(tick_step(s, Some(st)), rest, (iters - 1) as nat);
        assert forall|k: int| 0 <= k <= iters - 1 implies count_triggered(rest, k) + (
        if lookups[0] == Some(AlertState::Triggered) {
            1int
        } else {
            0
        }) == count_triggered(lookups, k + 1) by {
            lemma_count_triggered_shift(lookups, k);
        }
    }
}

/// Counting firing answers commutes with dropping the first answer.
proof fn lemma_count_triggered_shift(lookups: Seq<Option<AlertState>>, k: int)
    requires
        0 <= k < lookups.len(),
    ensures
        count_triggered(lookups, k + 1) == count_triggered(lookups.drop_first(), k) + (
        if lookups[0] == Some(AlertState::Triggered) {
            1int
        } else {
            0
        }),
    decreases k,
{
    let rest = lookups.drop_first();
    let hit = (if lookups[0] == Some(AlertState::Triggered) {
        1int
    } else {
        0
    });
    if k == 0 {
        assert(count_triggered(lookups, 1) == count_triggered(lookups, 0) + hit);
    } else {
        lemma_count_triggered_shift(lookups, k - 1);
        assert(rest[k - 1] == lookups[k]);
        assert(count_triggered(lookups, k + 1) == count_triggered(lookups, k) + (
        if lookups[k] == Some(AlertState::Triggered) {
            1int
        } else {
            0
        }));
        assert(count_triggered(rest, k) == count_triggered(rest, k - 1) + (
        if rest[k - 1] == Some(AlertState::Triggered) {
            1int
        } else {
            0
        }));
    }
}

} // verus!
