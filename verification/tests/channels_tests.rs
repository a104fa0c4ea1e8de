use rust_web_app::alert_history::{delivered, delivery_record, AlertLogContext};
use rust_web_app::feishu::{check_webhook, status_is_success, webhook_failure};
use rust_web_app::pushplus::{
    check_token, code_is_success, format_api_error, interpret_reply, PushplusReply, ReplyCode,
};

fn number(n: i64) -> ReplyCode {
    ReplyCode::Number { as_i64: Some(n), text: n.to_string() }
}

#[test]
fn success_codes() {
    assert!(code_is_success(&number(200)));
    assert!(!code_is_success(&number(500)));
    assert!(code_is_success(&ReplyCode::Str { value: "200".into(), text: "\"200\"".into() }));
    assert!(!code_is_success(&ReplyCode::Str { value: "ok".into(), text: "\"ok\"".into() }));
    assert!(!code_is_success(&ReplyCode::Number { as_i64: None, text: "200.0".into() }));
    assert!(!code_is_success(&ReplyCode::Other { text: "null".into() }));
}

#[test]
fn api_error_descriptions() {
    assert_eq!(format_api_error(&number(900), Some("bad token"), Some("detail")), "code 900: bad token: detail");
    assert_eq!(format_api_error(&number(900), Some(""), None), "code 900");
    assert_eq!(format_api_error(&ReplyCode::Other { text: "null".into() }, None, Some("d")), "code null: d");
}

#[test]
fn replies() {
    let ok = PushplusReply { code: number(200), msg: Some("ok".into()), data_text: None };
    assert_eq!(interpret_reply(&ok), Ok(()));
    let bad = PushplusReply { code: number(903), msg: Some("无效的用户token".into()), data_text: Some("".into()) };
    assert_eq!(interpret_reply(&bad), Err("pushplus code 903: 无效的用户token".to_string()));
    assert_eq!(check_token(""), Err("pushplus token is empty".to_string()));
    assert_eq!(check_token("t"), Ok(()));
}

#[test]
fn feishu_checks() {
    assert_eq!(check_webhook(""), Err("webhook url is empty".to_string()));
    assert_eq!(check_webhook("http://x"), Ok(()));
    assert!(status_is_success(200));
    assert!(status_is_success(299));
    assert!(!status_is_success(300));
    assert!(!status_is_success(199));
    assert_eq!(webhook_failure("400 Bad Request", "{}"), "feishu webhook failed: 400 Bad Request {}");
}

#[test]
fn delivery_records() {
    let r = delivery_record(Ok(()));
    assert_eq!(r.status, "ok");
    assert_eq!(r.error, None);
    assert!(delivered(&r));
    let r = delivery_record(Err("boom".into()));
    assert_eq!(r.status, "failed");
    assert_eq!(r.error, Some("boom".to_string()));
    assert!(!delivered(&r));
    let ctx = AlertLogContext { kind: "test".into(), check_id: None, check_name: None };
    assert_eq!(ctx.kind, "test");
}
