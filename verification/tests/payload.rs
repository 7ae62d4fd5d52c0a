use alert_targets::alerts::{AlertInfo, AlertState, Context, DeploymentInfo};
use alert_targets::sink::{AlertManager, Auth, OtherWebHook, SlackWebHook, TargetType};

fn ctx(state: AlertState) -> Context {
    Context {
        alert_info: AlertInfo {
            alert_id: "A".to_string(),
            alert_name: "disk \"full\"".to_string(),
            alert_state: state,
        },
        deployment_info: DeploymentInfo {
            deployment_id: "dep-1".to_string(),
            deployment_instance: "inst-1".to_string(),
            deployment_mode: "all".to_string(),
        },
        default_alert_string: "disk is\nfull".to_string(),
        default_resolved_string: "disk ok again".to_string(),
        default_silenced_string: "disk alert silenced".to_string(),
    }
}

#[test]
fn slack_payload_is_exact_json() {
    let hook = SlackWebHook { endpoint: "https://slack.example/hook".to_string() };
    let post = hook.render(&ctx(AlertState::Triggered));
    assert_eq!(post.endpoint, "https://slack.example/hook");
    assert!(post.body_is_json);
    assert_eq!(post.body, "{\"text\":\"disk is\\nfull\"}");
    let value: serde_json::Value = serde_json::from_str(&post.body).unwrap();
    assert_eq!(value["text"], "disk is\nfull");
}

#[test]
fn slack_payload_follows_state() {
    let hook = SlackWebHook { endpoint: "e".to_string() };
    let resolved = hook.render(&ctx(AlertState::Resolved));
    assert_eq!(resolved.body, "{\"text\":\"disk ok again\"}");
    let silenced = hook.render(&ctx(AlertState::Silenced));
    assert_eq!(silenced.body, "{\"text\":\"disk alert silenced\"}");
}

#[test]
fn webhook_payload_is_raw_message() {
    let hook = OtherWebHook {
        endpoint: "https://hook.example".to_string(),
        headers: vec![("x-one".to_string(), "1".to_string())],
        skip_tls_check: true,
    };
    let post = hook.render(&ctx(AlertState::Triggered));
    assert_eq!(post.body, "disk is\nfull");
    assert!(!post.body_is_json);
    assert_eq!(post.headers, vec![("x-one".to_string(), "1".to_string())]);
    assert!(post.skip_tls_check);
    assert_eq!(post.authorization, None);
}

#[test]
fn control_characters_are_escaped() {
    let hook = SlackWebHook { endpoint: "e".to_string() };
    let mut c = ctx(AlertState::Triggered);
    c.default_alert_string = "a\tb\rc\u{1}d\\e\"f".to_string();
    let post = hook.render(&c);
    assert_eq!(post.body, "{\"text\":\"a\\tb\\rc\\u0001d\\\\e\\\"f\"}");
    let value: serde_json::Value = serde_json::from_str(&post.body).unwrap();
    assert_eq!(value["text"], "a\tb\rc\u{1}d\\e\"f");
}

fn am() -> AlertManager {
    AlertManager {
        endpoint: "https://am.example/api/v2/alerts".to_string(),
        skip_tls_check: false,
        auth: Some(Auth { username: "admin".to_string(), password: "admin".to_string() }),
    }
}

#[test]
fn alertmanager_triggered_payload() {
    let post = am().render_with_time(&ctx(AlertState::Triggered), None);
    let value: serde_json::Value = serde_json::from_str(&post.body).unwrap();
    let alerts = value.as_array().unwrap();
    assert_eq!(alerts.len(), 1);
    let alert = &alerts[0];
    assert_eq!(alert["labels"]["alertname"], "disk \"full\"");
    assert_eq!(alert["labels"]["status"], "triggered");
    assert_eq!(alert["labels"]["deployment_id"], "dep-1");
    assert_eq!(alert["labels"]["deployment_instance"], "inst-1");
    assert_eq!(alert["labels"]["deployment_mode"], "all");
    assert_eq!(alert["annotations"]["message"], "MESSAGE");
    assert_eq!(alert["annotations"]["reason"], "REASON");
    assert!(alert.get("endsAt").is_none());
}

#[test]
fn alertmanager_resolved_payload_has_ends_at() {
    let post = am().render_with_time(&ctx(AlertState::Resolved), Some("2024-01-02T03:04:05.678Z"));
    let value: serde_json::Value = serde_json::from_str(&post.body).unwrap();
    let alert = &value.as_array().unwrap()[0];
    assert_eq!(alert["labels"]["status"], "resolved");
    assert_eq!(alert["annotations"]["reason"], "disk ok again");
    assert_eq!(alert["endsAt"], "2024-01-02T03:04:05.678Z");
}

#[test]
fn alertmanager_silenced_payload_has_no_ends_at() {
    let post = am().render_with_time(&ctx(AlertState::Silenced), None);
    let value: serde_json::Value = serde_json::from_str(&post.body).unwrap();
    let alert = &value.as_array().unwrap()[0];
    assert_eq!(alert["labels"]["status"], "silenced");
    assert_eq!(alert["annotations"]["reason"], "disk alert silenced");
    assert!(alert.get("endsAt").is_none());
}

#[test]
fn alertmanager_clock_fills_ends_at() {
    let post = am().render(&ctx(AlertState::Resolved));
    let value: serde_json::Value = serde_json::from_str(&post.body).unwrap();
    let alert = &value.as_array().unwrap()[0];
    let ends_at = alert["endsAt"].as_str().unwrap();
    assert!(!ends_at.is_empty());
    assert_eq!(alert["labels"]["status"], "resolved");
}

#[test]
fn basic_auth_is_real_base64() {
    let post = am().render_with_time(&ctx(AlertState::Triggered), None);
    // "admin:admin" in standard base64 with padding
    assert_eq!(post.authorization.as_deref(), Some("Basic YWRtaW46YWRtaW4="));
}

#[test]
fn no_auth_no_authorization_header() {
    let mut sink = am();
    sink.auth = None;
    let post = sink.render_with_time(&ctx(AlertState::Triggered), None);
    assert_eq!(post.authorization, None);
}

#[test]
fn target_type_render_dispatches_by_kind() {
    let t = TargetType::Slack(SlackWebHook { endpoint: "e1".to_string() });
    assert!(t.render(&ctx(AlertState::Triggered)).body.starts_with("{\"text\":"));
    let t = TargetType::Other(OtherWebHook {
        endpoint: "e2".to_string(),
        headers: vec![],
        skip_tls_check: false,
    });
    assert_eq!(t.render(&ctx(AlertState::Resolved)).body, "disk ok again");
    let t = TargetType::AlertManager(am());
    assert!(t.render(&ctx(AlertState::Silenced)).body.starts_with("[{\"labels\":"));
}

#[test]
fn duplicate_preserves_destination() {
    let t = TargetType::Other(OtherWebHook {
        endpoint: "e".to_string(),
        headers: vec![("a".to_string(), "b".to_string())],
        skip_tls_check: true,
    });
    assert_eq!(t.duplicate(), t);
    let t = TargetType::AlertManager(am());
    assert_eq!(t.duplicate(), t);
}
