use chrono::{DateTime, Utc};
use rust_web_app::checker::{
    alert_action, records_alert_time, AlertAction,    cooldown_elapsed, due_check_indices, format_alert, format_recovery, is_due, plan_alert,
    AlertStep,
};
use rust_web_app::clock::{elapsed_whole_secs, format_rfc3339, parse_rfc3339, Instant};
use rust_web_app::models::{FeishuConfig, HealthCheck};

fn at(text: &str) -> Instant {
    parse_rfc3339(text).unwrap()
}

fn chrono_secs(now: &str, then: &str) -> i64 {
    let a = DateTime::parse_from_rfc3339(now).unwrap().with_timezone(&Utc);
    let b = DateTime::parse_from_rfc3339(then).unwrap().with_timezone(&Utc);
    a.signed_duration_since(b).num_seconds()
}

#[test]
fn parse_gives_timestamp_and_fraction() {
    assert_eq!(at("1970-01-01T00:00:10Z"), Instant { secs: 10, nanos: 0 });
    assert_eq!(at("1970-01-01T08:00:10.5+08:00"), Instant { secs: 10, nanos: 500_000_000 });
    assert_eq!(parse_rfc3339("yesterday"), None);
}

#[test]
fn elapsed_matches_chrono() {
    let pairs = [
        ("2024-01-01T00:00:10Z", "2024-01-01T00:00:00Z"),
        ("2024-01-01T00:00:00Z", "2024-01-01T00:00:10Z"),
        ("2024-01-01T00:00:00.2Z", "2024-01-01T00:00:10.9Z"),
        ("2024-01-02T00:00:00.7Z", "2024-01-01T23:59:59.9Z"),
        ("2017-01-01T00:00:01Z", "2016-12-31T23:59:60.5Z"),
        ("2016-12-31T23:59:59Z", "2016-12-31T23:59:60.5Z"),
        ("2016-12-31T23:59:60.5Z", "2016-12-31T23:00:00Z"),
        ("1969-12-31T23:59:59.5Z", "1970-01-01T00:00:00.25Z"),
    ];
    for (now, then) in pairs {
        assert_eq!(
            elapsed_whole_secs(at(now), at(then)),
            chrono_secs(now, then) as i128,
            "{} since {}",
            now,
            then
        );
    }
}

#[test]
fn rfc3339_text_round_trip() {
    let t = Instant { secs: 1_700_000_000, nanos: 0 };
    let text = format_rfc3339(t).unwrap();
    assert_eq!(text, "2023-11-14T22:13:20+00:00");
    assert_eq!(parse_rfc3339(&text), Some(t));
}

#[test]
fn due_checks() {
    let now = at("2024-01-01T00:01:00Z");
    assert!(is_due(&None, 60, now));
    assert!(is_due(&Some("garbage".into()), 60, now));
    assert!(is_due(&Some("2024-01-01T00:00:00Z".into()), 60, now));
    assert!(!is_due(&Some("2024-01-01T00:00:01Z".into()), 60, now));
    assert!(cooldown_elapsed(&None, 300, now));
    assert!(!cooldown_elapsed(&Some("2024-01-01T00:00:00Z".into()), 300, now));
}

fn check(id: i64, last: Option<&str>, interval: i64) -> HealthCheck {
    HealthCheck {
        id,
        name: format!("c{}", id),
        url: "http://x".into(),
        method: "GET".into(),
        expected_status: 200,
        interval_secs: interval,
        enabled: true,
        last_checked_at: last.map(|s| s.to_string()),
        last_status: None,
        last_response_ms: None,
        last_error: None,
        created_at: "now".into(),
    }
}

#[test]
fn due_indices_in_order() {
    let now = at("2024-01-01T00:01:00Z");
    let checks = vec![
        check(1, Some("2024-01-01T00:00:30Z"), 60),
        check(2, None, 60),
        check(3, Some("2024-01-01T00:00:00Z"), 30),
    ];
    assert_eq!(due_check_indices(&checks, now), vec![1, 2]);
}

fn feishu(enabled: bool, url: &str) -> FeishuConfig {
    FeishuConfig { id: 1, webhook_url: url.into(), enabled, alert_cooldown_secs: 300 }
}

#[test]
fn alert_plans() {
    let cfg = feishu(true, "http://hook");
    let down = Some("down".to_string());
    let up = Some("up".to_string());
    assert_eq!(plan_alert(&up, "down", Some(&cfg)), AlertStep::Alert);
    assert_eq!(plan_alert(&None, "down", Some(&cfg)), AlertStep::Alert);
    assert_eq!(plan_alert(&down, "down", Some(&cfg)), AlertStep::AlertIfCooled);
    assert_eq!(plan_alert(&down, "up", Some(&cfg)), AlertStep::Recover);
    assert_eq!(plan_alert(&down, "error", Some(&cfg)), AlertStep::Recover);
    assert_eq!(plan_alert(&up, "up", Some(&cfg)), AlertStep::Nothing);
    assert_eq!(plan_alert(&up, "down", None), AlertStep::Nothing);
    assert_eq!(plan_alert(&up, "down", Some(&feishu(false, "http://hook"))), AlertStep::Nothing);
    assert_eq!(plan_alert(&down, "up", Some(&feishu(true, ""))), AlertStep::Nothing);
}

#[test]
fn alert_texts() {
    assert_eq!(
        format_alert("api", "http://x", &Some("timeout".into()), "T"),
        "【健康检查告警】\n名称: api\nURL: http://x\n原因: timeout\n时间: T"
    );
    assert_eq!(
        format_alert("api", "http://x", &None, "T"),
        "【健康检查告警】\n名称: api\nURL: http://x\n原因: unknown error\n时间: T"
    );
    assert_eq!(
        format_recovery("api", "http://x", "T"),
        "【健康检查恢复】\n名称: api\nURL: http://x\n时间: T"
    );
}

#[test]
fn no_time_passes_from_a_time_to_itself() {
    for t in ["2024-01-01T00:00:00Z", "2016-12-31T23:59:60.5Z", "1960-05-05T05:05:05.5+03:00"] {
        assert_eq!(elapsed_whole_secs(at(t), at(t)), 0);
    }
    assert_eq!(
        elapsed_whole_secs(Instant { secs: 100, nanos: 5 }, Instant { secs: 40, nanos: 5 }),
        60
    );
}

#[test]
fn alert_actions() {
    assert_eq!(alert_action(AlertStep::Nothing, true), AlertAction::Quiet);
    assert_eq!(alert_action(AlertStep::Alert, false), AlertAction::SendAlert);
    assert_eq!(alert_action(AlertStep::AlertIfCooled, true), AlertAction::SendAlert);
    assert_eq!(alert_action(AlertStep::AlertIfCooled, false), AlertAction::Quiet);
    assert_eq!(alert_action(AlertStep::Recover, false), AlertAction::SendRecovery);
    assert!(records_alert_time(AlertAction::SendAlert, true));
    assert!(!records_alert_time(AlertAction::SendAlert, false));
    assert!(!records_alert_time(AlertAction::SendRecovery, true));
    assert!(!records_alert_time(AlertAction::Quiet, true));
}
