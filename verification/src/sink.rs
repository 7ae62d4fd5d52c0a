//! The transport sinks: Slack, generic webhook, Alertmanager.
//!
//! A sink renders a [`Context`] into an [`HttpPost`]: a full description
//! of the single HTTP request that delivers the notification. Performing
//! the request is the surrounding runtime's job; everything data-dependent
//! — the payload text, the headers, the authorization value — is rendered
//! and specified here.

use base64::Engine;
use vstd::prelude::*;
use vstd::string::StringExecFns;

use crate::alerts::{AlertState, Context};
use crate::jsontext::{append_json_str, json_str};

verus! {

/// A single notification request, ready to be performed: where to POST,
/// what to send, and how.
#[derive(Clone, Debug, PartialEq, Eq)]
pub struct HttpPost {
    pub endpoint: String,
    pub body: String,
    /// The body is JSON rather than plain text.
    pub body_is_json: bool,
    /// Additional request headers, in order.
    pub headers: Vec<(String, String)>,
    /// Value for the `Authorization` header, if any.
    pub authorization: Option<String>,
    /// Skip TLS certificate verification for this request.
    pub skip_tls_check: bool,
}

/// A Slack incoming-webhook destination.
#[derive(Clone, Debug, PartialEq, Eq)]
pub struct SlackWebHook {
    pub endpoint: String,
}

/// A generic webhook destination with optional extra headers.
#[derive(Clone, Debug, PartialEq, Eq)]
pub struct OtherWebHook {
    pub endpoint: String,
    pub headers: Vec<(String, String)>,
    pub skip_tls_check: bool,
}

/// Basic-auth credentials for an Alertmanager endpoint.
#[derive(Clone, Debug, PartialEq, Eq)]
pub struct Auth {
    pub username: String,
    pub password: String,
}

/// A Prometheus-Alertmanager-compatible destination.
#[derive(Clone, Debug, PartialEq, Eq)]
pub struct AlertManager {
    pub endpoint: String,
    pub skip_tls_check: bool,
    pub auth: Option<Auth>,
}

/// The sink a target dispatches to.
#[derive(Clone, Debug, PartialEq, Eq)]
pub enum TargetType {
    Slack(SlackWebHook),
    Other(OtherWebHook),
    AlertManager(AlertManager),
}

/// What `base64::prelude::BASE64_STANDARD` encodes a string's bytes to.
/// The encoding is a fixed function of the input alone.
pub uninterp spec fn base64_of(s: Seq<char>) -> Seq<char>;

/// Relies on `base64::engine::Engine::encode` with the
/// `BASE64_STANDARD` engine: standard-alphabet base64 with padding,
/// computed from the input bytes alone; empty input encodes to the empty
/// string.
#[verifier::external_body]
fn encode_base64(s: &str) -> (r: String)
    ensures
        r@ == base64_of(s@),
        s@.len() == 0 ==> r@.len() == 0,
{
    base64::prelude::BASE64_STANDARD.encode(s)
}

/// Relies on `chrono::Utc::now` and `chrono::DateTime::to_rfc3339_opts`
/// with millisecond precision and the `Z` suffix: the current time as a
/// non-empty RFC 3339 string. The value depends on the clock, so nothing
/// more is assumed of it.
#[verifier::external_body]
fn now_rfc3339_millis() -> (r: String)
    ensures
        r@.len() > 0,
{
    chrono::Utc::now().to_rfc3339_opts(chrono::SecondsFormat::Millis, true)
}

/// The value of an `Authorization` header carrying HTTP basic auth for
/// the given credentials.
pub fn basic_auth_value(username: &str, password: &str) -> (r: String)
    ensures
        r@ == "Basic "@ + base64_of(username@ + ":"@ + password@),
{
    let mut creds = String::new();
    creds.append(username);
    creds.append(":");
    creds.append(password);
    let encoded = encode_base64(creds.as_str());
    let mut r = String::from_str("Basic ");
    r.append(encoded.as_str());
    proof {
        assert(creds@ =~= username@ + ":"@ + password@);
    }
    r
}

/// A copy of a header list with entry-for-entry equal values.
fn clone_headers(h: &Vec<(String, String)>) -> (r: Vec<(String, String)>)
    ensures
        r@ == h@,
{
    let mut r: Vec<(String, String)> = Vec::new();
    let mut i: usize = 0;
    while i < h.len()
        invariant
            0 <= i <= h.len(),
            r@ =~= h@.take(i as int),
        decreases h.len() - i,
    {
        let name = h[i].0.clone();
        let value = h[i].1.clone();
        r.push((name, value));
        i = i + 1;
    }
    proof {
        assert(h@.take(h@.len() as int) =~= h@);
    }
    r
}

/// The Slack payload: a JSON object whose `text` field holds the
/// preformatted message for the context's state.
pub open spec fn slack_payload(text: Seq<char>) -> Seq<char> {
    "{\"text\":"@ + json_str(text) + "}"@
}

/// What [`SlackWebHook::render`] produces.
pub open spec fn slack_renders(t: SlackWebHook, ctx: Context, r: HttpPost) -> bool {
    &&& r.endpoint@ == t.endpoint@
    &&& r.body@ == slack_payload(ctx.spec_message())
    &&& r.body_is_json == true
    &&& r.headers@ == Seq::<(String, String)>::empty()
    &&& r.authorization is None
    &&& r.skip_tls_check == false
}

/// What [`OtherWebHook::render`] produces: the raw preformatted message,
/// with the configured headers and TLS flag.
pub open spec fn webhook_renders(t: OtherWebHook, ctx: Context, r: HttpPost) -> bool {
    &&& r.endpoint@ == t.endpoint@
    &&& r.body@ == ctx.spec_message()
    &&& r.body_is_json == false
    &&& r.headers@ == t.headers@
    &&& r.authorization is None
    &&& r.skip_tls_check == t.skip_tls_check
}

/// The `status` label value for an alert state.
pub open spec fn am_status(st: AlertState) -> Seq<char> {
    match st {
        AlertState::Triggered => "triggered"@,
        AlertState::Resolved => "resolved"@,
        AlertState::Silenced => "silenced"@,
    }
}

/// The `reason` annotation: the placeholder while the alert fires, and
/// the matching preformatted message once it no longer does.
pub open spec fn am_reason(ctx: Context) -> Seq<char> {
    match ctx.alert_info.alert_state {
        AlertState::Triggered => "REASON"@,
        AlertState::Resolved => ctx.default_resolved_string@,
        AlertState::Silenced => ctx.default_silenced_string@,
    }
}

/// The Alertmanager payload: a JSON array of exactly one alert object,
/// with the alert name, the deployment triple and the status as labels,
/// the message placeholder and the reason as annotations, and — when one
/// is given — an `endsAt` timestamp.
pub open spec fn alertmanager_payload(ctx: Context, ends_at: Option<Seq<char>>) -> Seq<char> {
    "[{\"labels\":{\"alertname\":"@ + json_str(ctx.alert_info.alert_name@)
        + ",\"deployment_instance\":"@ + json_str(ctx.deployment_info.deployment_instance@)
        + ",\"deployment_id\":"@ + json_str(ctx.deployment_info.deployment_id@)
        + ",\"deployment_mode\":"@ + json_str(ctx.deployment_info.deployment_mode@)
        + ",\"status\":"@ + json_str(am_status(ctx.alert_info.alert_state))
        + "},\"annotations\":{\"message\":\"MESSAGE\",\"reason\":"@ + json_str(am_reason(ctx))
        + "}"@ + (match ends_at {
        Option::None => Seq::<char>::empty(),
        Option::Some(e) => ",\"endsAt\":"@ + json_str(e),
    }) + "}]"@
}

/// What [`AlertManager::render_with_time`] produces for a given `endsAt`
/// value.
pub open spec fn alertmanager_renders(
    t: AlertManager,
    ctx: Context,
    ends_at: Option<Seq<char>>,
    r: HttpPost,
) -> bool {
    &&& r.endpoint@ == t.endpoint@
    &&& r.body@ == alertmanager_payload(ctx, ends_at)
    &&& r.body_is_json == true
    &&& r.headers@ == Seq::<(String, String)>::empty()
    &&& (match t.auth {
        Option::None => r.authorization is None,
        Option::Some(a) => r.authorization matches Some(h) && h@ == "Basic "@ + base64_of(
            a.username@ + ":"@ + a.password@,
        ),
    })
    &&& r.skip_tls_check == t.skip_tls_check
}

impl SlackWebHook {
    /// Renders the Slack notification for `ctx`.
    pub fn render(&self, ctx: &Context) -> (r: HttpPost)
        ensures
            slack_renders(*self, *ctx, r),
    {
        let mut body = String::new();
        body.append("{\"text\":");
        append_json_str(&mut body, ctx.message().as_str());
        body.append("}");
        proof {
            assert(body@ =~= slack_payload(ctx.spec_message()));
        }
        HttpPost {
            endpoint: self.endpoint.clone(),
            body,
            body_is_json: true,
            headers: Vec::new(),
            authorization: None,
            skip_tls_check: false,
        }
    }
}

impl OtherWebHook {
    /// Renders the webhook notification for `ctx`: the preformatted
    /// message as the raw body.
    pub fn render(&self, ctx: &Context) -> (r: HttpPost)
        ensures
            webhook_renders(*self, *ctx, r),
    {
        HttpPost {
            endpoint: self.endpoint.clone(),
            body: ctx.message().clone(),
            body_is_json: false,
            headers: clone_headers(&self.headers),
            authorization: None,
            skip_tls_check: self.skip_tls_check,
        }
    }
}

impl AlertManager {
    /// Renders the Alertmanager notification for `ctx`, embedding the
    /// given timestamp as `endsAt` when one is passed.
    pub fn render_with_time(&self, ctx: &Context, ends_at: Option<&str>) -> (r: HttpPost)
        ensures
            ends_at is None ==> alertmanager_renders(*self, *ctx, None, r),
            ends_at matches Some(e) ==> alertmanager_renders(*self, *ctx, Some(e@), r),
    {
        let mut body = String::new();
        body.append("[{\"labels\":{\"alertname\":");
        append_json_str(&mut body, ctx.alert_info.alert_name.as_str());
        body.append(",\"deployment_instance\":");
        append_json_str(&mut body, ctx.deployment_info.deployment_instance.as_str());
        body.append(",\"deployment_id\":");
        append_json_str(&mut body, ctx.deployment_info.deployment_id.as_str());
        body.append(",\"deployment_mode\":");
        append_json_str(&mut body, ctx.deployment_info.deployment_mode.as_str());
        body.append(",\"status\":");
        match ctx.alert_info.alert_state {
            AlertState::Triggered => append_json_str(&mut body, "triggered"),
            AlertState::Resolved => append_json_str(&mut body, "resolved"),
            AlertState::Silenced => append_json_str(&mut body, "silenced"),
        }
        body.append("},\"annotations\":{\"message\":\"MESSAGE\",\"reason\":");
        match ctx.alert_info.alert_state {
            AlertState::Triggered => append_json_str(&mut body, "REASON"),
            AlertState::Resolved => append_json_str(
                &mut body,
                ctx.default_resolved_string.as_str(),
            ),
            AlertState::Silenced => append_json_str(
                &mut body,
                ctx.default_silenced_string.as_str(),
            ),
        }
        body.append("}");
        match ends_at {
            None => {},
            Some(e) => {
                body.append(",\"endsAt\":");
                append_json_str(&mut body, e);
            },
        }
        body.append("}]");
        proof {
            match ends_at {
                Option::None => {
                    assert(body@ =~= alertmanager_payload(*ctx, None));
                },
                Option::Some(e) => {
                    assert(body@ =~= alertmanager_payload(*ctx, Some(e@)));
                },
            }
        }
        let authorization = match &self.auth {
            None => None,
            Some(a) => Some(basic_auth_value(a.username.as_str(), a.password.as_str())),
        };
        HttpPost {
            endpoint: self.endpoint.clone(),
            body,
            body_is_json: true,
            headers: Vec::new(),
            authorization,
            skip_tls_check: self.skip_tls_check,
        }
    }

    /// Renders the Alertmanager notification for `ctx`. While the alert is
    /// resolved the payload carries the current time as a non-empty
    /// `endsAt` timestamp.
    pub fn render(&self, ctx: &Context) -> (r: HttpPost)
        ensures
            ctx.alert_info.alert_state != AlertState::Resolved ==> alertmanager_renders(
                *self,
                *ctx,
                None,
                r,
            ),
            ctx.alert_info.alert_state == AlertState::Resolved ==> exists|e: Seq<char>|
                e.len() > 0 && #[trigger] alertmanager_renders(*self, *ctx, Some(e), r),
    {
        match ctx.alert_info.alert_state {
            AlertState::Resolved => {
                let now = now_rfc3339_millis();
                let r = self.render_with_time(ctx, Some(now.as_str()));
                proof {
                    assert(alertmanager_renders(*self, *ctx, Some(now@), r));
                }
                r
            },
            _ => self.render_with_time(ctx, None),
        }
    }
}

/// Whether two sinks denote the same destination: same kind, and all
/// configuration fields equal as values.
pub open spec fn type_equiv(a: TargetType, b: TargetType) -> bool {
    match (a, b) {
        (TargetType::Slack(x), TargetType::Slack(y)) => x.endpoint@ == y.endpoint@,
        (TargetType::Other(x), TargetType::Other(y)) => {
            &&& x.endpoint@ == y.endpoint@
            &&& x.headers@ == y.headers@
            &&& x.skip_tls_check == y.skip_tls_check
        },
        (TargetType::AlertManager(x), TargetType::AlertManager(y)) => {
            &&& x.endpoint@ == y.endpoint@
            &&& x.skip_tls_check == y.skip_tls_check
            &&& (match (x.auth, y.auth) {
                (Option::None, Option::None) => true,
                (Option::Some(p), Option::Some(q)) => p.username@ == q.username@ && p.password@
                    == q.password@,
                _ => false,
            })
        },
        _ => false,
    }
}

impl TargetType {
    /// A copy of this sink that denotes the same destination.
    pub fn duplicate(&self) -> (r: TargetType)
        ensures
            type_equiv(*self, r),
            type_equiv(r, *self),
    {
        match self {
            TargetType::Slack(t) => TargetType::Slack(
                SlackWebHook { endpoint: t.endpoint.clone() },
            ),
            TargetType::Other(t) => TargetType::Other(
                OtherWebHook {
                    endpoint: t.endpoint.clone(),
                    headers: clone_headers(&t.headers),
                    skip_tls_check: t.skip_tls_check,
                },
            ),
            TargetType::AlertManager(t) => TargetType::AlertManager(
                AlertManager {
                    endpoint: t.endpoint.clone(),
                    skip_tls_check: t.skip_tls_check,
                    auth: match &t.auth {
                        None => None,
                        Some(a) => Some(
                            Auth {
                                username: a.username.clone(),
                                password: a.password.clone(),
                            },
                        ),
                    },
                },
            ),
        }
    }

    /// Renders the notification for `ctx` according to the sink kind.
    pub fn render(&self, ctx: &Context) -> (r: HttpPost)
        ensures
            self matches TargetType::Slack(t) ==> slack_renders(*t, *ctx, r),
            self matches TargetType::Other(t) ==> webhook_renders(*t, *ctx, r),
            self matches TargetType::AlertManager(t) ==> (ctx.alert_info.alert_state
                != AlertState::Resolved ==> alertmanager_renders(*t, *ctx, None, r)),
            self matches TargetType::AlertManager(t) ==> (ctx.alert_info.alert_state
                == AlertState::Resolved ==> exists|e: Seq<char>|
                e.len() > 0 && #[trigger] alertmanager_renders(*t, *ctx, Some(e), r)),
    {
        match self {
            TargetType::Slack(t) => t.render(ctx),
            TargetType::Other(t) => t.render(ctx),
            TargetType::AlertManager(t) => t.render(ctx),
        }
    }

    /// Whether this sink is an Alertmanager endpoint; such targets repeat
    /// forever by default.
    pub open spec fn spec_is_alertmanager(&self) -> bool {
        self is AlertManager
    }

    #[verifier::when_used_as_spec(spec_is_alertmanager)]
    pub fn is_alertmanager(&self) -> (r: bool)
        ensures
            r == self.spec_is_alertmanager(),
    {
        match self {
            TargetType::AlertManager(_) => true,
            _ => false,
        }
    }
}

} // verus!
