//! Laws of the notification state machine over whole event traces.
//!
//! An [`Event`] is anything that can touch a target's
//! [`TimeoutState`]: a foreground call with an incoming alert state, a
//! wake-up of the repeat schedule with what the registry answered, or the
//! schedule's final reset. The proof functions here state, for every
//! trace, the dispatch-counting guarantees the engine gives per timer
//! window.

use vstd::prelude::*;

use crate::alerts::AlertState;
use crate::scheduler::tick_step;
use crate::state::{call_dispatches, call_step, TimeoutState};

verus! {

/// One transition of a target's state.
#[derive(Clone, Copy, Debug, PartialEq, Eq, Structural)]
pub enum Event {
    /// The foreground path received an event with this incoming state.
    Call(AlertState),
    /// The repeat schedule woke up and the registry answered this
    /// (`None`: the alert is gone).
    Tick(Option<AlertState>),
    /// The repeat schedule exited and reset the state.
    Exit,
}

/// The successor of `s` under one event.
pub open spec fn step(s: TimeoutState, e: Event) -> TimeoutState {
    match e {
        Event::Call(incoming) => call_step(s, incoming),
        Event::Tick(lookup) => tick_step(s, lookup),
        Event::Exit => TimeoutState::spec_default(),
    }
}

/// The state after a whole trace of events.
pub open spec fn run(s: TimeoutState, es: Seq<Event>) -> TimeoutState
    decreases es.len(),
{
    if es.len() == 0 {
        s
    } else {
        run(step(s, es[0]), es.drop_first())
    }
}

/// The state just before the event at position `i` of a trace from `s`.
pub open spec fn state_at(s: TimeoutState, es: Seq<Event>, i: int) -> TimeoutState {
    run(s, es.take(i))
}

/// Whether the event dispatches a `Triggered` notification on the
/// foreground path: a foreground `Triggered` on an idle target.
pub open spec fn fg_triggered_dispatch(s: TimeoutState, e: Event) -> bool {
    e == Event::Call(AlertState::Triggered) && call_dispatches(s, AlertState::Triggered)
}

/// Whether the event forwards a non-firing notification on the
/// foreground path.
pub open spec fn fg_nonfiring_forward(s: TimeoutState, e: Event) -> bool {
    match e {
        Event::Call(incoming) => incoming != AlertState::Triggered && call_dispatches(s, incoming),
        _ => false,
    }
}

/// How many foreground `Triggered` dispatches a trace from `s` performs.
pub open spec fn count_fg_triggered(s: TimeoutState, es: Seq<Event>) -> int
    decreases es.len(),
{
    if es.len() == 0 {
        0
    } else {
        (if fg_triggered_dispatch(s, es[0]) {
            1int
        } else {
            0
        }) + count_fg_triggered(step(s, es[0]), es.drop_first())
    }
}

/// How many non-firing notifications a trace from `s` forwards.
pub open spec fn count_nonfiring_forwards(s: TimeoutState, es: Seq<Event>) -> int
    decreases es.len(),
{
    if es.len() == 0 {
        0
    } else {
        (if fg_nonfiring_forward(s, es[0]) {
            1int
        } else {
            0
        }) + count_nonfiring_forwards(step(s, es[0]), es.drop_first())
    }
}

/// `awaiting_resolve ==> timed_out` is preserved by every transition,
/// except a repeat tick that observes a firing alert while no window is
/// open — the schedule arms `awaiting_resolve` without opening one.
pub proof fn lemma_wf_preserved(s: TimeoutState, e: Event)
    requires
        s.wf(),
        e == Event::Tick(Some(AlertState::Triggered)) ==> s.timed_out,
    ensures
        step(s, e).wf(),
{
}

/// `awaiting_resolve ==> timed_out` is preserved by every trace whose
/// firing repeat ticks all happen while a window is open.
pub proof fn lemma_wf_preserved_run(s: TimeoutState, es: Seq<Event>)
    requires
        s.wf(),
        forall|i: int|
            0 <= i < es.len() && es[i] == Event::Tick(Some(AlertState::Triggered))
                ==> #[trigger] state_at(s, es, i).timed_out,
    ensures
        run(s, es).wf(),
    decreases es.len(),
{
    if es.len() > 0 {
        let s1 = step(s, es[0]);
        let rest = es.drop_first();
        assert(es.take(0) =~= Seq::<Event>::empty());
        assert(state_at(s, es, 0) == s);
        lemma_wf_preserved(s, es[0]);
        assert forall|i: int|
            0 <= i < rest.len() && rest[i] == Event::Tick(Some(AlertState::Triggered))
                implies #[trigger] state_at(s1, rest, i).timed_out by {
            lemma_state_at_shift(s, es, i + 1);
        }
        lemma_wf_preserved_run(s1, rest);
    }
}

/// The state before event `i + 1` of a trace equals the state before
/// event `i` of the trace that starts one step later.
proof fn lemma_state_at_shift(s: TimeoutState, es: Seq<Event>, i: int)
    requires
        1 <= i <= es.len(),
    ensures
        state_at(s, es, i) == state_at(step(s, es[0]), es.drop_first(), i - 1),
{
    assert(es.take(i)[0] == es[0]);
    assert(es.take(i).drop_first() =~= es.drop_first().take(i - 1));
}

/// A foreground `Triggered` dispatch happens only on an idle target and
/// opens a timer window: together with
/// [`lemma_no_triggered_dispatch_while_window_open`], at most one
/// foreground `Triggered` dispatch occurs between a transition of
/// `timed_out` to `true` and its next return to `false` — the one at the
/// opening transition itself.
pub proof fn lemma_triggered_dispatch_opens_window(s: TimeoutState, e: Event)
    requires
        fg_triggered_dispatch(s, e),
    ensures
        !s.timed_out,
        step(s, e).timed_out,
{
}

/// While a timer window stays open — the state before every event of the
/// trace has `timed_out` set — no foreground `Triggered` dispatch occurs.
pub proof fn lemma_no_triggered_dispatch_while_window_open(s: TimeoutState, es: Seq<Event>)
    requires
        forall|i: int| 0 <= i < es.len() ==> #[trigger] state_at(s, es, i).timed_out,
    ensures
        count_fg_triggered(s, es) == 0,
    decreases es.len(),
{
    if es.len() > 0 {
        let s1 = step(s, es[0]);
        let rest = es.drop_first();
        assert(es.take(0) =~= Seq::<Event>::empty());
        assert(state_at(s, es, 0) == s);
        assert(!fg_triggered_dispatch(s, es[0]));
        assert forall|i: int| 0 <= i < rest.len() implies #[trigger] state_at(
            s1,
            rest,
            i,
        ).timed_out by {
            lemma_state_at_shift(s, es, i + 1);
            assert(state_at(s, es, i + 1).timed_out);
        }
        lemma_no_triggered_dispatch_while_window_open(s1, rest);
    }
}

/// While a timer window stays open and no repeat tick observes a firing
/// alert, at most one non-firing notification is forwarded: the budget is
/// the `awaiting_resolve` flag, which forwarding consumes and only a
/// firing repeat tick re-arms.
pub proof fn lemma_one_forward_while_window_open(s: TimeoutState, es: Seq<Event>)
    requires
        forall|i: int| 0 <= i < es.len() ==> #[trigger] state_at(s, es, i).timed_out,
        forall|i: int| 0 <= i < es.len() ==> es[i] != Event::Tick(Some(AlertState::Triggered)),
    ensures
        count_nonfiring_forwards(s, es) <= if s.awaiting_resolve {
            1int
        } else {
            0
        },
        count_nonfiring_forwards(s, es) >= 0,
    decreases es.len(),
{
    if es.len() > 0 {
        let s1 = step(s, es[0]);
        let rest = es.drop_first();
        assert(es.take(0) =~= Seq::<Event>::empty());
        assert(state_at(s, es, 0) == s);
        assert forall|i: int| 0 <= i < rest.len() implies #[trigger] state_at(
            s1,
            rest,
            i,
        ).timed_out by {
            lemma_state_at_shift(s, es, i + 1);
            assert(state_at(s, es, i + 1).timed_out);
        }
        assert(forall|i: int| 0 <= i < rest.len() ==> rest[i] == #[trigger] es[i + 1]);
        lemma_one_forward_while_window_open(s1, rest);
        if fg_nonfiring_forward(s, es[0]) {
            assert(s.awaiting_resolve);
            assert(!s1.awaiting_resolve);
        } else {
            assert(s1.awaiting_resolve ==> s.awaiting_resolve);
        }
    }
}

/// Exactly one foreground `Triggered` dispatch occurs per timer window:
/// for a trace whose first event opens the window — a foreground
/// `Triggered` on an idle target — and whose later events leave it open,
/// the opening dispatch is the only one.
pub proof fn lemma_one_triggered_dispatch_per_window(s: TimeoutState, es: Seq<Event>)
    requires
        !s.timed_out,
        es.len() >= 1,
        es[0] == Event::Call(AlertState::Triggered),
        forall|i: int| 1 <= i < es.len() ==> #[trigger] state_at(s, es, i).timed_out,
    ensures
        count_fg_triggered(s, es) == 1,
{
    let s1 = step(s, es[0]);
    let rest = es.drop_first();
    assert(fg_triggered_dispatch(s, es[0]));
    assert(s1.timed_out);
    assert forall|i: int| 0 <= i < rest.len() implies #[trigger] state_at(s1, rest, i).timed_out by {
        lemma_state_at_shift(s, es, i + 1);
        assert(state_at(s, es, i + 1).timed_out);
    }
    lemma_no_triggered_dispatch_while_window_open(s1, rest);
}

/// At most one non-firing notification is forwarded per timer window: for
/// a trace whose first event opens the window and whose later events
/// leave it open and contain no firing repeat tick, at most one of them
/// forwards.
pub proof fn lemma_one_forward_per_window(s: TimeoutState, es: Seq<Event>)
    requires
        !s.timed_out,
        es.len() >= 1,
        es[0] == Event::Call(AlertState::Triggered),
        forall|i: int| 1 <= i < es.len() ==> #[trigger] state_at(s, es, i).timed_out,
        forall|i: int| 0 <= i < es.len() ==> es[i] != Event::Tick(Some(AlertState::Triggered)),
    ensures
        count_nonfiring_forwards(s, es) <= 1,
        count_nonfiring_forwards(s, es) >= 0,
{
    let s1 = step(s, es[0]);
    let rest = es.drop_first();
    assert(!fg_nonfiring_forward(s, es[0]));
    assert(s1.timed_out && s1.awaiting_resolve);
    assert forall|i: int| 0 <= i < rest.len() implies #[trigger] state_at(s1, rest, i).timed_out by {
        lemma_state_at_shift(s, es, i + 1);
        assert(state_at(s, es, i + 1).timed_out);
    }
    assert(forall|i: int| 0 <= i < rest.len() ==> rest[i] == #[trigger] es[i + 1]);
    lemma_one_forward_while_window_open(s1, rest);
}

/// A burst of foreground `Triggered` events against an idle target
/// produces exactly one foreground dispatch: the first one opens the
/// window, the rest fall into it.
pub proof fn lemma_burst_single_dispatch(s: TimeoutState, es: Seq<Event>)
    requires
        !s.timed_out,
        es.len() >= 1,
        forall|i: int| 0 <= i < es.len() ==> es[i] == Event::Call(AlertState::Triggered),
    ensures
        count_fg_triggered(s, es) == 1,
{
    let s1 = step(s, es[0]);
    let rest = es.drop_first();
    assert(fg_triggered_dispatch(s, es[0]));
    assert(s1.timed_out);
    assert(forall|i: int| 0 <= i < rest.len() ==> rest[i] == #[trigger] es[i + 1]);
    lemma_triggered_calls_keep_window(s1, rest);
    lemma_no_triggered_dispatch_while_window_open(s1, rest);
}

/// Foreground `Triggered` events never close an open window.
proof fn lemma_triggered_calls_keep_window(s: TimeoutState, es: Seq<Event>)
    requires
        s.timed_out,
        forall|i: int| 0 <= i < es.len() ==> es[i] == Event::Call(AlertState::Triggered),
    ensures
        forall|i: int| 0 <= i < es.len() ==> #[trigger] state_at(s, es, i).timed_out,
        run(s, es).timed_out,
    decreases es.len(),
{
    if es.len() > 0 {
        let s1 = step(s, es[0]);
        let rest = es.drop_first();
        assert(forall|i: int| 0 <= i < rest.len() ==> rest[i] == #[trigger] es[i + 1]);
        lemma_triggered_calls_keep_window(s1, rest);
        assert forall|i: int| 0 <= i < es.len() implies #[trigger] state_at(s, es, i).timed_out by {
            if i == 0 {
                assert(es.take(0) =~= Seq::<Event>::empty());
            } else {
                lemma_state_at_shift(s, es, i);
                assert(state_at(s1, rest, i - 1).timed_out);
            }
        }
    }
}

/// The first non-firing event in a timer window is always forwarded:
/// while the forward is still owed (`awaiting_resolve` is set, as it is
/// right after the window opens), a non-firing call dispatches. Outside a
/// window every non-firing call dispatches.
pub proof fn lemma_first_resolve_forwarded(s: TimeoutState, incoming: AlertState)
    requires
        s.wf(),
        incoming != AlertState::Triggered,
        !s.timed_out || s.awaiting_resolve,
    ensures
        fg_nonfiring_forward(s, Event::Call(incoming)),
        !step(s, Event::Call(incoming)).awaiting_resolve,
{
}

/// During one open timer window with a forward still owed, a non-firing
/// event followed by another non-firing event produces exactly one
/// forwarded notification: the second is dropped.
pub proof fn lemma_second_resolve_dropped(s: TimeoutState, first: AlertState, second: AlertState)
    requires
        s.timed_out,
        s.awaiting_resolve,
        first != AlertState::Triggered,
        second != AlertState::Triggered,
    ensures
        count_nonfiring_forwards(
            s,
            seq![Event::Call(first), Event::Call(second)],
        ) == 1,
{
    let es = seq![Event::Call(first), Event::Call(second)];
    assert(es[0] == Event::Call(first) && es.len() == 2);
    let s1 = step(s, es[0]);
    assert(fg_nonfiring_forward(s, es[0]));
    assert(s1.timed_out && !s1.awaiting_resolve);
    let rest = es.drop_first();
    assert(rest.len() == 1 && rest[0] == Event::Call(second));
    assert(!fg_nonfiring_forward(s1, rest[0]));
    let s2 = step(s1, rest[0]);
    assert(rest.drop_first().len() == 0);
    assert(count_nonfiring_forwards(s2, rest.drop_first()) == 0);
    assert(count_nonfiring_forwards(s1, rest) == 0);
    assert(count_nonfiring_forwards(s, es) == 1);
}

} // verus!
