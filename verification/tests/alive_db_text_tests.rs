use rust_web_app::alive_ping::{
    due_today, feishu_ping_text, first_line_of, last_sent_date, ping_channels, ping_delivered,
    pushplus_ping_text, sent_date_content, should_ping, state_file_path,
};
use rust_web_app::checkpoint_db::{checkpoint_rows, enabled_rules};
use rust_web_app::config::{AppConfig, TimeOfDay};
use rust_web_app::models::{CheckCheckpoint, CheckpointInput};
use rust_web_app::text::{decimal_text, parse_u64, text_equals, trim_text, uppercase_text};

fn tod(secs: u32) -> TimeOfDay {
    TimeOfDay { secs, nanos: 0 }
}

#[test]
fn ping_timing() {
    assert!(due_today(tod(9 * 3600), tod(9 * 3600)));
    assert!(!due_today(tod(9 * 3600 - 1), tod(9 * 3600)));
    assert!(due_today(TimeOfDay { secs: 10, nanos: 5 }, TimeOfDay { secs: 10, nanos: 4 }));
    assert!(should_ping(true, tod(40000), tod(32400), "2024-01-02", &Some("2024-01-01".into())));
    assert!(!should_ping(true, tod(40000), tod(32400), "2024-01-02", &Some("2024-01-02".into())));
    assert!(!should_ping(false, tod(40000), tod(32400), "2024-01-02", &None));
    assert!(!should_ping(true, tod(100), tod(32400), "2024-01-02", &None));
}

#[test]
fn ping_channels_and_texts() {
    let mut cfg = AppConfig::default();
    assert_eq!(ping_channels(&cfg), (false, false));
    cfg.feishu.enabled = true;
    cfg.feishu.webhook_url = " ".into();
    cfg.pushplus.enabled = true;
    cfg.pushplus.token = "tok".into();
    assert_eq!(ping_channels(&cfg), (false, true));
    assert_eq!(feishu_ping_text("Hi", "alive", "T"), "【Hi】\nalive\n时间: T");
    assert_eq!(pushplus_ping_text("alive", "T"), "alive\n时间: T");
    assert!(ping_delivered(true, false, true, true));
    assert!(!ping_delivered(false, true, true, false));
}

#[test]
fn state_file() {
    assert_eq!(first_line_of("2024-01-01\r\nrest"), "2024-01-01");
    assert_eq!(first_line_of("a\rb\nc"), "a\rb");
    assert_eq!(first_line_of("only"), "only");
    assert_eq!(first_line_of(""), "");
    assert_eq!(last_sent_date(" 2024-01-01 \n"), Some("2024-01-01".to_string()));
    assert_eq!(last_sent_date("   \nx"), None);
    assert_eq!(last_sent_date(""), None);
    assert_eq!(sent_date_content("2024-01-01"), "2024-01-01\n");
    let cfg = AppConfig::default();
    assert_eq!(state_file_path(&cfg), "data/last_alive_ping.date");
    let mut cfg2 = AppConfig::default();
    cfg2.database.path = "health.db".into();
    assert_eq!(state_file_path(&cfg2), "last_alive_ping.date");
    cfg2.database.path = "/".into();
    assert_eq!(state_file_path(&cfg2), "data/last_alive_ping.date");
}

#[test]
fn stored_checkpoints() {
    let row = |id: i64, enabled: bool| CheckCheckpoint {
        id,
        check_id: 1,
        kind: "contains".into(),
        value: format!("v{}", id),
        enabled,
        sort_order: id,
    };
    let rules = enabled_rules(vec![row(1, true), row(2, false), row(3, true)]);
    assert_eq!(rules.len(), 2);
    assert_eq!(rules[0].value, "v1");
    assert_eq!(rules[1].value, "v3");
    let rows = checkpoint_rows(&[
        CheckpointInput { kind: "equals".into(), value: "  x ".into(), enabled: None },
        CheckpointInput { kind: "regex".into(), value: "y".into(), enabled: Some(false) },
    ]);
    assert_eq!(rows.len(), 2);
    assert_eq!(rows[0].value, "x");
    assert!(rows[0].enabled);
    assert_eq!(rows[0].sort_order, 0);
    assert_eq!(rows[1].kind, "regex");
    assert!(!rows[1].enabled);
    assert_eq!(rows[1].sort_order, 1);
}

#[test]
fn numbers_as_text() {
    assert_eq!(decimal_text(0), "0");
    assert_eq!(decimal_text(1234567890), "1234567890");
    assert_eq!(decimal_text(u64::MAX), u64::MAX.to_string());
    assert_eq!(parse_u64("+12"), Some(12));
    assert_eq!(parse_u64("+"), None);
    assert_eq!(parse_u64(""), None);
    assert_eq!(parse_u64("18446744073709551615"), Some(u64::MAX));
    assert_eq!(parse_u64("18446744073709551616"), None);
    assert_eq!(parse_u64("99999999999999999999x"), None);
    for n in [0u64, 7, 10, 99, 1000, u64::MAX] {
        assert_eq!(parse_u64(&decimal_text(n)), Some(n));
        assert_eq!(parse_u64(&n.to_string()), n.to_string().parse::<u64>().ok());
    }
}

#[test]
fn white_space_matches_std() {
    let listed: Vec<u32> = vec![
        0x09, 0x0A, 0x0B, 0x0C, 0x0D, 0x20, 0x85, 0xA0, 0x1680, 0x2000, 0x2001, 0x2002, 0x2003,
        0x2004, 0x2005, 0x2006, 0x2007, 0x2008, 0x2009, 0x200A, 0x2028, 0x2029, 0x202F, 0x205F,
        0x3000,
    ];
    for v in 0..=0x10FFFFu32 {
        if let Some(c) = char::from_u32(v) {
            assert_eq!(c.is_whitespace(), listed.contains(&v), "U+{:04X}", v);
        }
    }
    assert_eq!(trim_text("\u{3000} a b\u{2028}\t"), "a b");
    assert_eq!(trim_text(" \u{85} "), "");
    assert!(text_equals("héllo", "héllo"));
    assert!(!text_equals("héllo", "hello"));
    assert!(!text_equals("ab", "abc"));
    assert!(text_equals("", ""));
}

#[test]
fn uppercase_of_ascii_methods() {
    assert_eq!(uppercase_text("get"), "GET");
    assert_eq!(uppercase_text("pAtch-1"), "PATCH-1");
}

#[test]
fn a_recorded_day_blocks_a_second_ping() {
    let today = "2024-05-06";
    let content = sent_date_content(today);
    let last = last_sent_date(&content);
    assert_eq!(last, Some(today.to_string()));
    assert!(!should_ping(true, tod(86399), tod(0), today, &last));
    assert!(should_ping(true, tod(86399), tod(0), "2024-05-07", &last));
}
