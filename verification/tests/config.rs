use alert_targets::sink::{AlertManager, Auth, OtherWebHook, SlackWebHook, TargetType};
use alert_targets::state::{Retry, TimeoutState};
use alert_targets::target::{ConfigError, RepeatVerifier, Target, TargetVerifier};

fn slack() -> TargetType {
    TargetType::Slack(SlackWebHook { endpoint: "https://slack.example/hook".to_string() })
}

fn webhook() -> TargetType {
    TargetType::Other(OtherWebHook {
        endpoint: "https://hook.example/notify".to_string(),
        headers: vec![("x-custom".to_string(), "value-one".to_string())],
        skip_tls_check: false,
    })
}

fn alertmanager() -> TargetType {
    TargetType::AlertManager(AlertManager {
        endpoint: "https://am.example/api/v2/alerts".to_string(),
        skip_tls_check: true,
        auth: Some(Auth { username: "admin".to_string(), password: "admin".to_string() }),
    })
}

#[test]
fn default_policy_slack() {
    let t = Target::try_from(TargetVerifier { target: slack(), repeat: None }).unwrap();
    assert_eq!(t.timeout.interval, 60000);
    assert_eq!(t.timeout.times, Retry::Finite(1));
    assert_eq!(t.timeout.state, TimeoutState::default());
}

#[test]
fn default_policy_webhook() {
    let t = Target::try_from(TargetVerifier { target: webhook(), repeat: None }).unwrap();
    assert_eq!(t.timeout.interval, 60000);
    assert_eq!(t.timeout.times, Retry::Finite(1));
}

#[test]
fn default_policy_alertmanager() {
    let t = Target::try_from(TargetVerifier { target: alertmanager(), repeat: None }).unwrap();
    assert_eq!(t.timeout.interval, 60000);
    assert_eq!(t.timeout.times, Retry::Infinite);
}

#[test]
fn alertmanager_times_override_wins() {
    let t = Target::try_from(TargetVerifier {
        target: alertmanager(),
        repeat: Some(RepeatVerifier { interval: None, times: Some(4) }),
    })
    .unwrap();
    assert_eq!(t.timeout.interval, 60000);
    assert_eq!(t.timeout.times, Retry::Finite(4));
}

#[test]
fn zero_times_rejected() {
    let r = Target::try_from(TargetVerifier {
        target: slack(),
        repeat: Some(RepeatVerifier { interval: Some("30s".to_string()), times: Some(0) }),
    });
    assert_eq!(r, Err(ConfigError::ZeroRetries));
}

#[test]
fn bad_interval_rejected() {
    for bad in ["", "abc", "10", "s", "10x", "10s5", "-3s", "1h 30m", "10S"] {
        let r = Target::try_from(TargetVerifier {
            target: slack(),
            repeat: Some(RepeatVerifier { interval: Some(bad.to_string()), times: None }),
        });
        assert_eq!(r, Err(ConfigError::BadInterval), "interval {:?} should be rejected", bad);
    }
}

#[test]
fn bad_interval_reported_before_zero_times() {
    let r = Target::try_from(TargetVerifier {
        target: slack(),
        repeat: Some(RepeatVerifier { interval: Some("nope".to_string()), times: Some(0) }),
    });
    assert_eq!(r, Err(ConfigError::BadInterval));
}

#[test]
fn interval_grammar() {
    for (text, ms) in [
        ("30s", 30_000u64),
        ("5m", 300_000),
        ("2h", 7_200_000),
        ("100ms", 100),
        ("1h30m", 5_400_000),
        ("1h2m3s4ms", 3_723_004),
        ("0s", 0),
        ("90m", 5_400_000),
    ] {
        let t = Target::try_from(TargetVerifier {
            target: slack(),
            repeat: Some(RepeatVerifier { interval: Some(text.to_string()), times: Some(2) }),
        })
        .unwrap();
        assert_eq!(t.timeout.interval, ms, "interval {:?}", text);
        assert_eq!(t.timeout.times, Retry::Finite(2));
    }
}

#[test]
fn oversized_interval_rejected() {
    // 600000000000 hours in milliseconds exceeds u64
    let r = Target::try_from(TargetVerifier {
        target: slack(),
        repeat: Some(RepeatVerifier {
            interval: Some("600000000000000000000h".to_string()),
            times: None,
        }),
    });
    assert_eq!(r, Err(ConfigError::BadInterval));
}

#[test]
fn format_duration_canonical() {
    assert_eq!(alert_targets::duration::format_duration_ms(90_000), "90000ms");
    assert_eq!(alert_targets::duration::format_duration_ms(0), "0ms");
}

#[test]
fn parse_duration_direct() {
    assert_eq!(alert_targets::duration::parse_duration_ms("45s"), Some(45_000));
    assert_eq!(alert_targets::duration::parse_duration_ms("45"), None);
    assert_eq!(alert_targets::duration::parse_duration_ms("ms"), None);
    assert_eq!(alert_targets::duration::parse_duration_ms("7ms"), Some(7));
}

fn assert_config_equiv(a: &Target, b: &Target) {
    assert_eq!(a.target, b.target);
    assert_eq!(a.timeout.interval, b.timeout.interval);
    assert_eq!(a.timeout.times, b.timeout.times);
}

#[test]
fn round_trip_with_repeat() {
    let t = Target::try_from(TargetVerifier {
        target: webhook(),
        repeat: Some(RepeatVerifier { interval: Some("90s".to_string()), times: Some(3) }),
    })
    .unwrap();
    let v = t.to_verifier();
    let rep = v.repeat.as_ref().unwrap();
    assert_eq!(rep.interval.as_deref(), Some("90000ms"));
    assert_eq!(rep.times, Some(3));
    let t2 = Target::try_from(v).unwrap();
    assert_config_equiv(&t2, &t);
}

#[test]
fn round_trip_elides_defaults() {
    let t = Target::try_from(TargetVerifier { target: alertmanager(), repeat: None }).unwrap();
    let v = t.to_verifier();
    assert!(v.repeat.is_none());
    let t2 = Target::try_from(v).unwrap();
    assert_config_equiv(&t2, &t);

    let t = Target::try_from(TargetVerifier { target: slack(), repeat: None }).unwrap();
    let v = t.to_verifier();
    assert!(v.repeat.is_none());
    let t2 = Target::try_from(v).unwrap();
    assert_config_equiv(&t2, &t);
}

#[test]
fn round_trip_infinite_alertmanager_with_interval() {
    let t = Target::try_from(TargetVerifier {
        target: alertmanager(),
        repeat: Some(RepeatVerifier { interval: Some("100ms".to_string()), times: None }),
    })
    .unwrap();
    assert_eq!(t.timeout.times, Retry::Infinite);
    let v = t.to_verifier();
    let rep = v.repeat.as_ref().unwrap();
    assert_eq!(rep.interval.as_deref(), Some("100ms"));
    assert_eq!(rep.times, None);
    let t2 = Target::try_from(v).unwrap();
    assert_config_equiv(&t2, &t);
}
