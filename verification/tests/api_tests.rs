use rust_web_app::api::{
    deletion_outcome, feishu_test_outcome, feishu_test_target, feishu_test_text, history_page,
    merge_update, normalize_checkpoint_inputs, plan_create, pushplus_test_outcome,
    pushplus_test_target, pushplus_test_text, pushplus_test_title, AppError,
};
use rust_web_app::config;
use rust_web_app::models::{
    CheckpointInput, CreateHealthCheck, HealthCheck, TestFeishuRequest, UpdateHealthCheck,
};

fn create(name: &str, url: &str) -> CreateHealthCheck {
    CreateHealthCheck {
        name: name.into(),
        url: url.into(),
        method: None,
        expected_status: None,
        interval_secs: None,
        enabled: None,
        checkpoints: None,
    }
}

fn bad_request(r: &AppError) -> Option<String> {
    match r {
        AppError::BadRequest(m) => Some(m.clone()),
        _ => None,
    }
}

#[test]
fn create_requires_name_and_url() {
    let e = plan_create(&create("  ", "http://x")).unwrap_err();
    assert_eq!(bad_request(&e), Some("name and url are required".to_string()));
    let e = plan_create(&create("n", "")).unwrap_err();
    assert_eq!(e.answer(), (400, "name and url are required".to_string()));
}

#[test]
fn create_fills_defaults() {
    let f = plan_create(&create(" api ", " http://x ")).unwrap();
    assert_eq!(f.name, "api");
    assert_eq!(f.url, "http://x");
    assert_eq!(f.method, "GET");
    assert_eq!(f.expected_status, 200);
    assert_eq!(f.interval_secs, 60);
    assert!(f.enabled);
    let mut c = create("a", "b");
    c.interval_secs = Some(3);
    c.method = Some("POST".into());
    c.expected_status = Some(204);
    c.enabled = Some(false);
    let f = plan_create(&c).unwrap();
    assert_eq!(f.interval_secs, 10);
    assert_eq!(f.method, "POST");
    assert_eq!(f.expected_status, 204);
    assert!(!f.enabled);
}

#[test]
fn update_keeps_missing_fields() {
    let existing = HealthCheck {
        id: 1,
        name: "old".into(),
        url: "http://old".into(),
        method: "HEAD".into(),
        expected_status: 301,
        interval_secs: 120,
        enabled: false,
        last_checked_at: None,
        last_status: None,
        last_response_ms: None,
        last_error: None,
        created_at: "t".into(),
    };
    let body = UpdateHealthCheck {
        name: Some("new".into()),
        url: None,
        method: None,
        expected_status: None,
        interval_secs: Some(1),
        enabled: Some(true),
        checkpoints: None,
    };
    let f = merge_update(&existing, &body);
    assert_eq!(f.name, "new");
    assert_eq!(f.url, "http://old");
    assert_eq!(f.method, "HEAD");
    assert_eq!(f.expected_status, 301);
    assert_eq!(f.interval_secs, 10);
    assert!(f.enabled);
}

fn input(kind: &str, value: &str, enabled: Option<bool>) -> CheckpointInput {
    CheckpointInput { kind: kind.into(), value: value.into(), enabled }
}

#[test]
fn checkpoint_inputs_are_normalized() {
    let out =
        normalize_checkpoint_inputs(vec![input(" Regex ", "a+", None), input("equals", " x ", Some(false))])
            .unwrap();
    assert_eq!(out.len(), 2);
    assert_eq!(out[0].kind, "regex");
    assert_eq!(out[0].value, "a+");
    assert_eq!(out[1].kind, "equals");
    assert_eq!(out[1].value, " x ");
    assert_eq!(out[1].enabled, Some(false));
}

#[test]
fn checkpoint_inputs_are_refused() {
    let e = normalize_checkpoint_inputs(vec![input("contains", "  ", None)]).unwrap_err();
    assert_eq!(bad_request(&e), Some("检查点预期值不能为空".to_string()));
    let e = normalize_checkpoint_inputs(vec![input("contains", "ok", None), input("prefix", "x", None)])
        .unwrap_err();
    assert_eq!(
        bad_request(&e),
        Some("不支持的检查点类型，可选: contains, equals, not_contains, regex, not_regex".to_string())
    );
}

#[test]
fn paging() {
    assert_eq!(history_page(None, None), (50, 0));
    assert_eq!(history_page(Some(0), Some(5)), (1, 5));
    assert_eq!(history_page(Some(1000), None), (200, 0));
    assert_eq!(history_page(Some(20), Some(40)), (20, 40));
}

#[test]
fn error_answers() {
    assert_eq!(AppError::NotFound.answer(), (404, "not found".to_string()));
    assert_eq!(AppError::Upstream("x".into()).answer(), (502, "x".to_string()));
    assert_eq!(AppError::Db("disk".into()).answer(), (500, "internal error".to_string()));
    assert!(deletion_outcome(1).is_ok());
    assert!(matches!(deletion_outcome(0), Err(AppError::NotFound)));
}

#[test]
fn test_message_targets() {
    let mut f = config::FeishuConfig::default();
    assert_eq!(
        bad_request(&feishu_test_target(&f, None).unwrap_err()),
        Some("config.toml 中飞书告警未启用".to_string())
    );
    f.enabled = true;
    f.webhook_url = "  ".into();
    assert_eq!(
        bad_request(&feishu_test_target(&f, None).unwrap_err()),
        Some("config.toml 中未配置飞书 webhook_url".to_string())
    );
    f.webhook_url = " http://hook ".into();
    assert_eq!(feishu_test_target(&f, None).unwrap(), "http://hook");
    let given = TestFeishuRequest { webhook_url: Some(" http://other ".into()) };
    assert_eq!(feishu_test_target(&f, Some(&given)).unwrap(), "http://other");
    let blank = TestFeishuRequest { webhook_url: Some("  ".into()) };
    assert_eq!(feishu_test_target(&f, Some(&blank)).unwrap(), "http://hook");
    let absent = TestFeishuRequest { webhook_url: None };
    assert_eq!(feishu_test_target(&f, Some(&absent)).unwrap(), "http://hook");
    let mut off = config::FeishuConfig::default();
    off.webhook_url = "http://hook".into();
    assert_eq!(
        bad_request(&feishu_test_target(&off, Some(&given)).unwrap_err()),
        Some("config.toml 中飞书告警未启用".to_string())
    );
    let mut unset = config::FeishuConfig::default();
    unset.enabled = true;
    assert_eq!(feishu_test_target(&unset, Some(&given)).unwrap(), "http://other");
    assert_eq!(
        bad_request(&feishu_test_target(&unset, Some(&blank)).unwrap_err()),
        Some("config.toml 中未配置飞书 webhook_url".to_string())
    );
    let mut p = config::PushplusConfig::default();
    assert_eq!(
        bad_request(&pushplus_test_target(&p).unwrap_err()),
        Some("config.toml 中 PushPlus 告警未启用".to_string())
    );
    p.enabled = true;
    assert_eq!(
        bad_request(&pushplus_test_target(&p).unwrap_err()),
        Some("config.toml 中未配置 pushplus token".to_string())
    );
    p.token = "tok\n".into();
    assert_eq!(pushplus_test_target(&p).unwrap(), "tok");
}

#[test]
fn test_message_texts() {
    assert_eq!(feishu_test_text("T"), "【测试消息】Are You Healthy 飞书告警通道正常。\n时间: T");
    assert_eq!(pushplus_test_title(), "Are You Healthy 测试消息");
    assert_eq!(pushplus_test_text("T"), "PushPlus 告警通道正常。\n时间: T");
    assert!(feishu_test_outcome(true).is_ok());
    assert_eq!(
        feishu_test_outcome(false).unwrap_err().answer(),
        (502, "飞书发送失败，详见告警历史".to_string())
    );
    assert_eq!(
        pushplus_test_outcome(false).unwrap_err().answer(),
        (502, "PushPlus 发送失败，详见告警历史".to_string())
    );
}
