//! Alert states and the per-event context record handed to a target.

use vstd::prelude::*;

verus! {

/// The state an alert is observed in. `Resolved` and `Silenced` are treated
/// identically by the notification state machine and are collectively called
/// non-firing.
#[derive(Clone, Copy, Debug, PartialEq, Eq, Structural)]
pub enum AlertState {
    Triggered,
    Resolved,
    Silenced,
}

impl AlertState {
    /// A non-firing state is one that is not `Triggered`.
    pub open spec fn spec_is_non_firing(self) -> bool {
        self != AlertState::Triggered
    }

    #[verifier::when_used_as_spec(spec_is_non_firing)]
    pub fn is_non_firing(self) -> (r: bool)
        ensures
            r == self.spec_is_non_firing(),
    {
        match self {
            AlertState::Triggered => false,
            AlertState::Resolved => true,
            AlertState::Silenced => true,
        }
    }
}

impl Default for AlertState {
    /// An alert about which nothing has been observed counts as resolved.
    fn default() -> (r: Self)
        ensures
            r == AlertState::Resolved,
    {
        AlertState::Resolved
    }
}

/// Identity of the alert an event belongs to, plus the observed state.
#[derive(Clone, Debug)]
pub struct AlertInfo {
    /// Opaque identifier assigned by the surrounding system; the engine
    /// treats it as a key only.
    pub alert_id: String,
    pub alert_name: String,
    pub alert_state: AlertState,
}

/// Deployment metadata carried along with every event.
#[derive(Clone, Debug)]
pub struct DeploymentInfo {
    pub deployment_id: String,
    pub deployment_instance: String,
    pub deployment_mode: String,
}

/// Immutable per-event record pushed into a target. Besides the alert and
/// deployment identity it carries three preformatted message strings, one
/// per alert state, from which the sinks render their payloads.
#[derive(Clone, Debug)]
pub struct Context {
    pub alert_info: AlertInfo,
    pub deployment_info: DeploymentInfo,
    pub default_alert_string: String,
    pub default_resolved_string: String,
    pub default_silenced_string: String,
}

impl Context {
    /// The preformatted message matching the state the context carries.
    pub open spec fn spec_message(&self) -> Seq<char> {
        match self.alert_info.alert_state {
            AlertState::Triggered => self.default_alert_string@,
            AlertState::Resolved => self.default_resolved_string@,
            AlertState::Silenced => self.default_silenced_string@,
        }
    }

    /// Returns the preformatted message matching the state the context
    /// carries.
    pub fn message(&self) -> (r: &String)
        ensures
            r@ == self.spec_message(),
    {
        match self.alert_info.alert_state {
            AlertState::Triggered => &self.default_alert_string,
            AlertState::Resolved => &self.default_resolved_string,
            AlertState::Silenced => &self.default_silenced_string,
        }
    }
}

} // verus!
