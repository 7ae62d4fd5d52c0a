use alert_targets::alerts::{AlertInfo, AlertState, Context, DeploymentInfo};
use alert_targets::scheduler::{repeat_finish, repeat_tick, RepeatTick};
use alert_targets::sink::{SlackWebHook, TargetType};
use alert_targets::state::{Retry, TimeoutState};
use alert_targets::target::{RepeatVerifier, Target, TargetVerifier};

fn ctx(state: AlertState) -> Context {
    Context {
        alert_info: AlertInfo {
            alert_id: "A".to_string(),
            alert_name: "cpu-high".to_string(),
            alert_state: state,
        },
        deployment_info: DeploymentInfo {
            deployment_id: "dep-1".to_string(),
            deployment_instance: "inst-1".to_string(),
            deployment_mode: "all".to_string(),
        },
        default_alert_string: "alert fired".to_string(),
        default_resolved_string: "alert resolved".to_string(),
        default_silenced_string: "alert silenced".to_string(),
    }
}

fn finite_target(times: usize) -> Target {
    Target::try_from(TargetVerifier {
        target: TargetType::Slack(SlackWebHook { endpoint: "https://s.example".to_string() }),
        repeat: Some(RepeatVerifier { interval: Some("100ms".to_string()), times: Some(times) }),
    })
    .unwrap()
}

fn invariant_holds(s: &TimeoutState) -> bool {
    !s.awaiting_resolve || s.timed_out
}

/// Drives the finite repeat schedule of `t` with the given registry
/// answers, the way the runtime would, and returns how many dispatches the
/// schedule performed.
fn drive_finite_schedule(t: &mut Target, lookups: &[Option<AlertState>]) -> usize {
    let n = match t.timeout.times {
        Retry::Finite(n) => n,
        Retry::Infinite => panic!("finite schedule expected"),
    };
    let mut dispatches = 0;
    let mut lookups = lookups.iter();
    for _ in 0..(n - 1) {
        let lookup = *lookups.next().expect("a registry answer per iteration");
        match repeat_tick(&mut t.timeout.state, lookup) {
            RepeatTick::Stop => return dispatches,
            RepeatTick::Dispatch => dispatches += 1,
            RepeatTick::Silent => {}
        }
        assert!(invariant_holds(&t.timeout.state));
    }
    repeat_finish(&mut t.timeout.state);
    dispatches
}

#[test]
fn triggered_then_resolved_dispatches_twice() {
    let mut t = finite_target(3);
    let a = t.call(&ctx(AlertState::Triggered));
    assert!(a.dispatch);
    assert!(a.spawn_repeat);
    // scenario: the registry still reports Triggered after the first
    // sleep, Resolved after the second
    let sched = drive_finite_schedule(&mut t, &[
        Some(AlertState::Triggered),
        Some(AlertState::Resolved),
    ]);
    assert_eq!(1 + sched, 2);
    assert_eq!(t.timeout.state, TimeoutState::default());
}

#[test]
fn triggered_then_foreground_resolve() {
    let mut t = finite_target(3);
    let a = t.call(&ctx(AlertState::Triggered));
    assert!(a.dispatch && a.spawn_repeat);
    let b = t.call(&ctx(AlertState::Resolved));
    assert!(b.dispatch);
    assert!(!b.spawn_repeat);
    // the schedule then sees Resolved from the registry and goes silent
    let sched = drive_finite_schedule(&mut t, &[
        Some(AlertState::Resolved),
        Some(AlertState::Resolved),
    ]);
    assert_eq!(sched, 0);
    assert_eq!(t.timeout.state, TimeoutState::default());
}

#[test]
fn second_resolve_in_window_dropped() {
    let mut t = finite_target(3);
    assert!(t.call(&ctx(AlertState::Triggered)).dispatch);
    assert!(t.call(&ctx(AlertState::Resolved)).dispatch);
    let c = t.call(&ctx(AlertState::Resolved));
    assert!(!c.dispatch, "second resolve in one window must be dropped");
    assert!(!c.spawn_repeat);
}

#[test]
fn silenced_counts_as_resolve() {
    let mut t = finite_target(2);
    assert!(t.call(&ctx(AlertState::Triggered)).dispatch);
    assert!(t.call(&ctx(AlertState::Silenced)).dispatch);
    assert!(!t.call(&ctx(AlertState::Silenced)).dispatch);
    assert_eq!(t.timeout.state.alert_state, AlertState::Silenced);
}

#[test]
fn triggered_burst_single_dispatch() {
    let mut t = finite_target(3);
    let mut dispatches = 0;
    for _ in 0..5 {
        let a = t.call(&ctx(AlertState::Triggered));
        if a.dispatch {
            dispatches += 1;
        }
        assert!(invariant_holds(&t.timeout.state));
    }
    assert_eq!(dispatches, 1);
}

#[test]
fn finite_retries_all_firing() {
    // Finite(3): the initial dispatch plus two schedule dispatches
    let mut t = finite_target(3);
    assert!(t.call(&ctx(AlertState::Triggered)).dispatch);
    let sched = drive_finite_schedule(&mut t, &[
        Some(AlertState::Triggered),
        Some(AlertState::Triggered),
    ]);
    assert_eq!(1 + sched, 3);
    assert_eq!(t.timeout.state, TimeoutState::default());
}

#[test]
fn registry_failure_stops_schedule() {
    let mut t = finite_target(5);
    assert!(t.call(&ctx(AlertState::Triggered)).dispatch);
    let sched = drive_finite_schedule(&mut t, &[Some(AlertState::Triggered), None]);
    assert_eq!(sched, 1);
    assert_eq!(t.timeout.state, TimeoutState::default());
}

#[test]
fn infinite_schedule_stops_on_failure() {
    // Infinite: drive ticks by hand until the registry loses the alert
    let mut t = Target::try_from(TargetVerifier {
        target: TargetType::AlertManager(alert_targets::sink::AlertManager {
            endpoint: "https://am.example".to_string(),
            skip_tls_check: false,
            auth: None,
        }),
        repeat: Some(RepeatVerifier { interval: Some("100ms".to_string()), times: None }),
    })
    .unwrap();
    assert_eq!(t.timeout.times, Retry::Infinite);
    assert!(t.call(&ctx(AlertState::Triggered)).dispatch);
    let mut dispatches = 1;
    for lookup in [Some(AlertState::Triggered), None] {
        match repeat_tick(&mut t.timeout.state, lookup) {
            RepeatTick::Stop => break,
            RepeatTick::Dispatch => dispatches += 1,
            RepeatTick::Silent => {}
        }
    }
    assert_eq!(dispatches, 2);
    assert_eq!(t.timeout.state, TimeoutState::default());
}

#[test]
fn nonfiring_tick_closes_window_and_heartbeat_continues() {
    let mut t = finite_target(4);
    t.call(&ctx(AlertState::Triggered));
    assert!(t.timeout.state.timed_out);
    assert_eq!(
        repeat_tick(&mut t.timeout.state, Some(AlertState::Resolved)),
        RepeatTick::Silent
    );
    assert!(!t.timeout.state.timed_out);
    assert!(!t.timeout.state.awaiting_resolve);
    // an infinite-mode schedule would sleep and check again; a firing
    // answer re-arms the pending resolve
    assert_eq!(
        repeat_tick(&mut t.timeout.state, Some(AlertState::Triggered)),
        RepeatTick::Dispatch
    );
    assert!(t.timeout.state.awaiting_resolve);
}

#[test]
fn call_does_not_change_policy() {
    let mut t = finite_target(3);
    t.call(&ctx(AlertState::Triggered));
    t.call(&ctx(AlertState::Resolved));
    assert_eq!(t.timeout.interval, 100);
    assert_eq!(t.timeout.times, Retry::Finite(3));
}

#[test]
fn resolve_on_idle_target_dispatches() {
    let mut t = finite_target(1);
    let a = t.call(&ctx(AlertState::Resolved));
    assert!(a.dispatch);
    assert!(!a.spawn_repeat);
    assert!(!t.timeout.state.timed_out);
    assert_eq!(t.timeout.state.alert_state, AlertState::Resolved);
}

#[test]
fn non_firing_states() {
    assert!(!AlertState::Triggered.is_non_firing());
    assert!(AlertState::Resolved.is_non_firing());
    assert!(AlertState::Silenced.is_non_firing());
}

#[test]
fn message_matches_state() {
    let c = ctx(AlertState::Silenced);
    assert_eq!(c.message(), "alert silenced");
    let c = ctx(AlertState::Triggered);
    assert_eq!(c.message(), "alert fired");
    let c = ctx(AlertState::Resolved);
    assert_eq!(c.message(), "alert resolved");
}
