use rust_web_app::checkpoints::CheckpointRule;
use rust_web_app::config::AppConfig;
use rust_web_app::probe::{
    answered_probe, answered_probe_checked, build_request_message, capture_max_bytes, judge_response, read_response,
    start_probe, transport_failure, truncate_body, verdict_is_evaluable, HeaderLine, ProbeStart,
};

#[test]
fn request_message_for_get_and_post() {
    assert_eq!(build_request_message("get", "http://a/b"), "GET http://a/b");
    assert_eq!(
        build_request_message("Post", "http://a"),
        "POST http://a\n\n(empty body)"
    );
}

#[test]
fn capture_limit_comes_from_config() {
    let cfg = AppConfig::default();
    assert_eq!(capture_max_bytes(&cfg), 8192);
}

#[test]
fn short_body_is_kept() {
    assert_eq!(truncate_body("hello", 5), "hello");
    assert_eq!(truncate_body("", 0), "");
}

#[test]
fn long_body_is_cut_on_a_character_boundary() {
    // "héllo" is 6 bytes; 'é' occupies bytes 1..3, so a 2-byte cut keeps "h".
    assert_eq!(truncate_body("héllo", 2), "h\n\n[truncated, 6 bytes total]");
    assert_eq!(truncate_body("héllo", 3), "hé\n\n[truncated, 6 bytes total]");
    assert_eq!(truncate_body("abcdef", 0), "\n\n[truncated, 6 bytes total]");
}

#[test]
fn refused_method() {
    match start_probe("bad method", "http://x") {
        ProbeStart::Refused(r) => {
            assert_eq!(r.status, "error");
            assert_eq!(r.error, Some("unsupported method: BAD METHOD".to_string()));
            assert_eq!(r.request_message, "BAD METHOD http://x");
            assert_eq!(r.response_ms, None);
            assert_eq!(r.response_message, None);
        }
        ProbeStart::Send { .. } => panic!("expected refusal"),
    }
}

#[test]
fn accepted_methods() {
    match start_probe("head", "http://x") {
        ProbeStart::Send { method, head_only, request_message } => {
            assert_eq!(method, "HEAD");
            assert!(head_only);
            assert_eq!(request_message, "HEAD http://x");
        }
        ProbeStart::Refused(_) => panic!("HEAD is valid"),
    }
    match start_probe("purge", "http://x") {
        ProbeStart::Send { method, head_only, .. } => {
            assert_eq!(method, "PURGE");
            assert!(!head_only);
        }
        ProbeStart::Refused(_) => panic!("extension methods are valid"),
    }
}

#[test]
fn transport_failure_is_down() {
    let r = transport_failure("GET x".to_string(), "connection refused".to_string());
    assert_eq!(r.status, "down");
    assert_eq!(r.error, Some("connection refused".to_string()));
    assert_eq!(r.response_ms, None);
}

#[test]
fn response_message_layout() {
    let headers = vec![
        HeaderLine { name: "content-type".into(), value: Some("text/plain".into()) },
        HeaderLine { name: "x-bin".into(), value: None },
    ];
    let (msg, body) = read_response("200 OK", &headers, false, Ok("hi".into()), 100);
    assert_eq!(msg, "HTTP/1.1 200 OK\ncontent-type: text/plain\nx-bin: [binary]\n\nhi");
    assert_eq!(body, "hi");
    let (msg, body) = read_response("200 OK", &headers, true, Ok("hi".into()), 100);
    assert_eq!(msg, "HTTP/1.1 200 OK\ncontent-type: text/plain\nx-bin: [binary]");
    assert_eq!(body, "");
    let (msg, body) = read_response("200 OK", &vec![], false, Err("eof".into()), 100);
    assert_eq!(msg, "HTTP/1.1 200 OK\n\n[failed to read body: eof]");
    assert_eq!(body, "");
}

#[test]
fn verdicts() {
    let none: Vec<CheckpointRule> = vec![];
    assert_eq!(
        judge_response(500, 200, false, "", &none),
        ("down".to_string(), Some("status 500 (expected 200)".to_string()))
    );
    assert_eq!(
        judge_response(200, -1, false, "", &none),
        ("down".to_string(), Some("status 200 (expected -1)".to_string()))
    );
    assert_eq!(judge_response(200, 200, false, "", &none), ("up".to_string(), None));
    let rules = vec![CheckpointRule { kind: "contains".into(), value: "ok".into() }];
    assert_eq!(
        judge_response(200, 200, true, "", &rules),
        ("down".to_string(), Some("HEAD 请求无响应体，无法执行检查点".to_string()))
    );
    assert_eq!(
        judge_response(200, 200, false, "not here", &rules),
        ("down".to_string(), Some("检查点 #1 [包含] 响应体未包含: ok".to_string()))
    );
    assert_eq!(judge_response(200, 200, false, "ok!", &rules), ("up".to_string(), None));
    assert!(verdict_is_evaluable(200, 200, false, "ok!", &rules));
}

#[test]
fn answered_probe_keeps_timing_and_messages() {
    let r = answered_probe("GET x".into(), 12, 404, 200, false, "HTTP/1.1 404".into(), "", &[]);
    assert_eq!(r.status, "down");
    assert_eq!(r.response_ms, Some(12));
    assert_eq!(r.response_message, Some("HTTP/1.1 404".to_string()));
    assert_eq!(r.request_message, "GET x");
}

#[test]
fn checked_answer_refuses_a_cut_inside_a_character() {
    let bad = format!("{}é{}", "a".repeat(79), "b".repeat(10));
    let rules = vec![CheckpointRule { kind: "contains".into(), value: bad }];
    let r = answered_probe_checked("GET x".into(), 1, 200, 200, false, "m".into(), "body", &rules);
    assert!(r.is_none());
    let r = answered_probe_checked("GET x".into(), 1, 500, 200, false, "m".into(), "body", &rules);
    assert_eq!(r.unwrap().error, Some("status 500 (expected 200)".to_string()));
}
