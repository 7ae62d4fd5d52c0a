//! A notification target: a sink plus its repeat policy, with the
//! state machine deciding what each incoming event does, and the
//! conversion between targets and their compact serialized form.

use vstd::prelude::*;

use crate::alerts::Context;
use crate::duration::{
    duration_millis, fmt_millis, format_duration_ms, lemma_duration_round_trip, parse_duration_ms,
};
use crate::sink::{type_equiv, TargetType};
use crate::state::{
    call_dispatches, call_spawns, call_step, CallAction, Retry, Timeout, TimeoutState,
    DEFAULT_INTERVAL_MS,
};

verus! {

/// Why a serialized target was rejected.
#[derive(Clone, Copy, Debug, PartialEq, Eq, Structural)]
pub enum ConfigError {
    /// The `repeat.interval` string is not a duration, or its value does
    /// not fit.
    BadInterval,
    /// `repeat.times` is zero: a target that never notifies is a
    /// configuration mistake.
    ZeroRetries,
    /// The serialized form carries a field the grammar does not know.
    UnknownField,
    /// The serialized form lacks a required field.
    MissingField,
}

/// The optional `repeat` block of a serialized target, before validation.
#[derive(Clone, Debug, PartialEq, Eq)]
pub struct RepeatVerifier {
    /// Duration string, for example `"30s"` or `"5m"`.
    pub interval: Option<String>,
    /// Number of notifications, including the initial one.
    pub times: Option<usize>,
}

/// A serialized target as read from configuration, before validation.
#[derive(Clone, Debug, PartialEq, Eq)]
pub struct TargetVerifier {
    pub target: TargetType,
    pub repeat: Option<RepeatVerifier>,
}

/// One configured notification destination: the sink, and the repeat
/// policy with its runtime state.
#[derive(Clone, Debug, PartialEq, Eq)]
pub struct Target {
    pub target: TargetType,
    pub timeout: Timeout,
}

/// The retry count a sink kind gets when the configuration names none:
/// Alertmanager targets repeat until resolved, all others notify once.
pub open spec fn default_times_for(t: TargetType) -> Retry {
    if t is AlertManager {
        Retry::Infinite
    } else {
        Retry::Finite(1usize)
    }
}

/// The interval a `repeat` block denotes, in milliseconds: the default
/// when it names none, the parsed duration otherwise. `None` stands for a
/// malformed or oversized duration.
pub open spec fn interval_of(rep: RepeatVerifier) -> Option<int> {
    match rep.interval {
        Option::None => Some(DEFAULT_INTERVAL_MS as int),
        Option::Some(s) => match duration_millis(s@) {
            Option::None => None,
            Option::Some(v) => if v <= u64::MAX {
                Some(v)
            } else {
                None
            },
        },
    }
}

/// The retry count a `repeat` block denotes for a sink of kind `t`.
/// `None` stands for the rejected `times = 0`.
pub open spec fn times_of(rep: RepeatVerifier, t: TargetType) -> Option<Retry> {
    match rep.times {
        Option::None => Some(default_times_for(t)),
        Option::Some(n) => if n == 0 {
            None
        } else {
            Some(Retry::Finite(n))
        },
    }
}

/// What parsing a serialized target yields: the target with defaults
/// filled in, or the error. A malformed interval is reported before a
/// zero retry count.
pub open spec fn spec_try_from(v: TargetVerifier) -> Result<Target, ConfigError> {
    match v.repeat {
        Option::None => Ok(
            Target {
                target: v.target,
                timeout: Timeout {
                    interval: DEFAULT_INTERVAL_MS,
                    times: default_times_for(v.target),
                    state: TimeoutState::spec_default(),
                },
            },
        ),
        Option::Some(rep) => match interval_of(rep) {
            Option::None => Err(ConfigError::BadInterval),
            Option::Some(ms) => match times_of(rep, v.target) {
                Option::None => Err(ConfigError::ZeroRetries),
                Option::Some(times) => Ok(
                    Target {
                        target: v.target,
                        timeout: Timeout {
                            interval: ms as u64,
                            times,
                            state: TimeoutState::spec_default(),
                        },
                    },
                ),
            },
        },
    }
}

/// What every parsed target satisfies: a finite retry count is at least
/// one, and only Alertmanager targets repeat forever.
pub open spec fn parsed_wf(t: Target) -> bool {
    &&& (t.timeout.times matches Retry::Finite(n) ==> n >= 1)
    &&& (t.timeout.times is Infinite ==> t.target is AlertManager)
}

/// Whether two targets carry the same configuration: same destination and
/// same repeat policy. The runtime state is not part of the
/// configuration.
pub open spec fn config_equiv(a: Target, b: Target) -> bool {
    &&& type_equiv(a.target, b.target)
    &&& a.timeout.interval == b.timeout.interval
    &&& a.timeout.times == b.timeout.times
}

impl Target {
    /// Validates a serialized target.
    ///
    /// A missing `repeat` block means the defaults: a 60 second interval,
    /// and infinite retries for Alertmanager targets, a single
    /// notification for all others. A `times` of zero is rejected, as is
    /// an interval string outside the duration grammar.
    pub fn try_from(value: TargetVerifier) -> (r: Result<Target, ConfigError>)
        ensures
            r == spec_try_from(value),
            value.repeat is None ==> (r matches Ok(t) && t.target == value.target
                && t.timeout.interval == DEFAULT_INTERVAL_MS && t.timeout.times
                == default_times_for(value.target)),
            value.repeat matches Some(rep) ==> (rep.times == Some(0usize) ==> r is Err),
            r matches Ok(t) ==> parsed_wf(t) && t.timeout.state == TimeoutState::spec_default(),
    {
        let TargetVerifier { target, repeat } = value;
        let default_times = if target.is_alertmanager() {
            Retry::Infinite
        } else {
            Retry::Finite(1)
        };
        match repeat {
            None => Ok(
                Target {
                    target,
                    timeout: Timeout {
                        interval: DEFAULT_INTERVAL_MS,
                        times: default_times,
                        state: TimeoutState::default(),
                    },
                },
            ),
            Some(rep) => {
                let interval = match &rep.interval {
                    None => DEFAULT_INTERVAL_MS,
                    Some(s) => match parse_duration_ms(s.as_str()) {
                        None => {
                            return Err(ConfigError::BadInterval);
                        },
                        Some(ms) => ms,
                    },
                };
                let times = match rep.times {
                    None => default_times,
                    Some(n) => {
                        if n == 0 {
                            return Err(ConfigError::ZeroRetries);
                        }
                        Retry::Finite(n)
                    },
                };
                Ok(
                    Target {
                        target,
                        timeout: Timeout { interval, times, state: TimeoutState::default() },
                    },
                )
            },
        }
    }

    /// Serializes this target back to its compact form, eliding the
    /// `repeat` block when the policy is the default for the sink kind.
    ///
    /// Parsing the result yields a target with the same sink and the same
    /// policy (the runtime state is not part of the configuration): the
    /// round trip of serializing and reparsing is the identity on every
    /// target that parsing can produce.
    pub fn to_verifier(&self) -> (v: TargetVerifier)
        ensures
            type_equiv(v.target, self.target),
            v.target is Slack == self.target is Slack,
            v.target is Other == self.target is Other,
            v.target is AlertManager == self.target is AlertManager,
            self.timeout.times == default_times_for(self.target) && self.timeout.interval
                == DEFAULT_INTERVAL_MS ==> v.repeat is None,
            !(self.timeout.times == default_times_for(self.target) && self.timeout.interval
                == DEFAULT_INTERVAL_MS) ==> (v.repeat matches Some(rep) && {
                &&& rep.interval matches Some(s) && s@ == fmt_millis(self.timeout.interval as nat)
                &&& rep.times == (match self.timeout.times {
                    Retry::Finite(n) => Some(n),
                    Retry::Infinite => None::<usize>,
                })
            }),
            parsed_wf(*self) ==> (spec_try_from(v) matches Ok(t) && config_equiv(t, *self)),
    {
        let is_default_times = match (&self.timeout.times, &self.target) {
            (Retry::Infinite, TargetType::AlertManager(_)) => true,
            (Retry::Finite(_), TargetType::AlertManager(_)) => false,
            (Retry::Finite(n), _) => *n == 1,
            (Retry::Infinite, _) => false,
        };
        let repeat = if is_default_times && self.timeout.interval == DEFAULT_INTERVAL_MS {
            None
        } else {
            let times = match self.timeout.times {
                Retry::Finite(n) => Some(n),
                Retry::Infinite => None,
            };
            Some(
                RepeatVerifier {
                    interval: Some(format_duration_ms(self.timeout.interval)),
                    times,
                },
            )
        };
        proof {
            lemma_duration_round_trip(self.timeout.interval as nat);
        }
        TargetVerifier { target: self.target.duplicate(), repeat }
    }

    /// Feeds one incoming event to the state machine.
    ///
    /// The target's state moves to its successor under
    /// [`call_step`]; the returned action says whether the caller should
    /// dispatch a notification for this event and whether it should start
    /// the repeat schedule. The sink and the policy never change.
    pub fn call(&mut self, context: &Context) -> (r: CallAction)
        ensures
            final(self).target == old(self).target,
            final(self).timeout.interval == old(self).timeout.interval,
            final(self).timeout.times == old(self).timeout.times,
            final(self).timeout.state == call_step(
                old(self).timeout.state,
                context.alert_info.alert_state,
            ),
            r.dispatch == call_dispatches(old(self).timeout.state, context.alert_info.alert_state),
            r.spawn_repeat == call_spawns(old(self).timeout.state, context.alert_info.alert_state),
            old(self).timeout.state.wf() ==> final(self).timeout.state.wf(),
    {
        let incoming = context.alert_info.alert_state;
        let state = &mut self.timeout.state;
        state.alert_state = incoming;
        match incoming {
            crate::alerts::AlertState::Triggered => {
                if !state.timed_out {
                    state.timed_out = true;
                    state.awaiting_resolve = true;
                    CallAction { dispatch: true, spawn_repeat: true }
                } else {
                    CallAction { dispatch: false, spawn_repeat: false }
                }
            },
            _ => {
                if state.timed_out {
                    if state.awaiting_resolve {
                        state.awaiting_resolve = false;
                        CallAction { dispatch: true, spawn_repeat: false }
                    } else {
                        CallAction { dispatch: false, spawn_repeat: false }
                    }
                } else {
                    CallAction { dispatch: true, spawn_repeat: false }
                }
            },
        }
    }
}

} // verus!
