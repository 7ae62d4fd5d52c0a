//! Alert target notification engine.
//!
//! A `Target` describes one notification destination for an alert: a sink
//! (Slack, generic webhook, or an Alertmanager-compatible endpoint) together
//! with a repeat policy. Incoming alert state transitions are fed to
//! [`target::Target::call`], which decides, under a per-target
//! [`state::TimeoutState`], whether to dispatch a notification at once,
//! whether to start a repeat schedule, and whether to forward or drop a
//! resolve. The repeat schedule itself is driven tick by tick through
//! [`scheduler::repeat_tick`]; the surrounding runtime owns the sleeps, the
//! registry lookups and the HTTP transport.
//!
//! Configuration is parsed from a compact serialized form
//! ([`target::TargetVerifier`]) with a human-readable duration grammar
//! ([`duration`]); each sink renders its wire payload in [`sink`]. The
//! engine's per-window guarantees — at most one `Triggered` dispatch and
//! at most one forwarded resolve per timer window, and the state resets
//! when a schedule ends — are stated and proved over whole event traces
//! in [`laws`] and [`scheduler`].

pub mod alerts;
pub mod state;
pub mod strutil;
pub mod duration;
pub mod jsontext;
pub mod sink;
pub mod target;
pub mod scheduler;
pub mod laws;
