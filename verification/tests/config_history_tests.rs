use rust_web_app::clock::{format_rfc3339, Instant};
use rust_web_app::config::{default_config_path, AppConfig, TimeOfDay};
use rust_web_app::history::{cleanup_interval, env_u64, keep_per_check, retention_cutoff, HistoryRetention};

#[test]
fn defaults() {
    let c = AppConfig::default();
    assert_eq!(c.server.host, "0.0.0.0");
    assert_eq!(c.server.port, 8080);
    assert_eq!(c.database_path(), "data/health.db");
    assert_eq!(c.assets_dir(), "assets");
    assert_eq!(c.history.retention_days, 30);
    assert_eq!(c.history.max_per_check, 1000);
    assert_eq!(c.history.cleanup_interval_secs, 3600);
    assert_eq!(c.probe.capture_max_bytes, 8192);
    assert_eq!(c.scheduler.tick_secs, 5);
    assert_eq!(c.http_client.timeout_secs, 15);
    assert_eq!(c.log.level, "info");
    assert_eq!(c.feishu.webhook_url, "");
    assert!(!c.feishu.enabled);
    assert_eq!(c.feishu.alert_cooldown_secs, 300);
    assert_eq!(c.pushplus.alert_cooldown_secs, 300);
    assert_eq!(c.alive_ping.send_time, TimeOfDay { secs: 9 * 3600, nanos: 0 });
    assert_eq!(default_config_path(), "config.toml");
}

#[test]
fn normalized_brings_settings_within_bounds() {
    let mut c = AppConfig::default();
    c.probe.capture_max_bytes = 1;
    c.scheduler.tick_secs = 0;
    c.history.cleanup_interval_secs = 5;
    c.http_client.timeout_secs = 0;
    c.feishu.alert_cooldown_secs = -4;
    c.pushplus.alert_cooldown_secs = 59;
    let n = c.normalized();
    assert_eq!(n.probe.capture_max_bytes, 256);
    assert_eq!(n.scheduler.tick_secs, 1);
    assert_eq!(n.history.cleanup_interval_secs, 60);
    assert_eq!(n.http_client.timeout_secs, 1);
    assert_eq!(n.feishu.alert_cooldown_secs, 60);
    assert_eq!(n.pushplus.alert_cooldown_secs, 60);
    let mut big = AppConfig::default();
    big.probe.capture_max_bytes = 10 * 1024 * 1024;
    assert_eq!(big.normalized().probe.capture_max_bytes, 1024 * 1024);
}

#[test]
fn normalized_is_idempotent_on_values() {
    let mut c = AppConfig::default();
    c.probe.capture_max_bytes = 3;
    let once = c.normalized();
    let a = once.probe.capture_max_bytes;
    let twice = once.clone().normalized();
    assert_eq!(twice.probe.capture_max_bytes, a);
    let d = AppConfig::default();
    assert_eq!(d.clone().normalized().probe.capture_max_bytes, d.probe.capture_max_bytes);
}

#[test]
fn settings_from_text() {
    assert_eq!(env_u64(None, 30), 30);
    assert_eq!(env_u64(Some("7"), 30), 7);
    assert_eq!(env_u64(Some("+7"), 30), 7);
    assert_eq!(env_u64(Some(" 7"), 30), 30);
    assert_eq!(env_u64(Some("-1"), 30), 30);
    assert_eq!(env_u64(Some("abc"), 30), 30);
    let r = HistoryRetention::from_env(Some("10"), None, Some("x"));
    assert_eq!(r.retention_days, 10);
    assert_eq!(r.max_per_check, 1000);
    assert_eq!(r.cleanup_interval_secs, 3600);
}

#[test]
fn cleanup_settings() {
    let now = Instant { secs: 1_700_000_000, nanos: 0 };
    assert_eq!(retention_cutoff(now, 0), None);
    let cutoff = retention_cutoff(now, 1).unwrap().unwrap();
    assert_eq!(Some(cutoff), format_rfc3339(Instant { secs: 1_700_000_000 - 86400, nanos: 0 }));
    let expected = (chrono::DateTime::from_timestamp(1_700_000_000, 0).unwrap()
        - chrono::Duration::days(30))
    .to_rfc3339();
    assert_eq!(retention_cutoff(now, 30), Some(Some(expected)));
    let r = HistoryRetention { retention_days: 0, max_per_check: 0, cleanup_interval_secs: 10 };
    assert_eq!(keep_per_check(&r), None);
    assert_eq!(cleanup_interval(&r), 60);
    let r = HistoryRetention { retention_days: 1, max_per_check: 5, cleanup_interval_secs: 600 };
    assert_eq!(keep_per_check(&r), Some(5));
    assert_eq!(cleanup_interval(&r), 600);
}
