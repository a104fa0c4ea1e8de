use rust_web_app::checkpoints::{
    evaluate_all, evaluate_one, normalize_kind, rules_are_evaluable, truncate_display,
    value_can_be_shown, CheckpointRule,
};

fn rule(kind: &str, value: &str) -> CheckpointRule {
    CheckpointRule { kind: kind.to_string(), value: value.to_string() }
}

#[test]
fn normalize_kind_trims_and_lowercases() {
    assert_eq!(normalize_kind("  Contains "), Some("contains".to_string()));
    assert_eq!(normalize_kind("NOT_REGEX"), Some("not_regex".to_string()));
    assert_eq!(normalize_kind("equals"), Some("equals".to_string()));
}

#[test]
fn normalize_kind_refuses_unknown() {
    assert_eq!(normalize_kind("startswith"), None);
    assert_eq!(normalize_kind(""), None);
    assert_eq!(normalize_kind("contain s"), None);
}

#[test]
fn normalize_kind_is_idempotent() {
    for k in ["contains", "equals", "not_contains", "regex", "not_regex"] {
        let once = normalize_kind(k).unwrap();
        assert_eq!(normalize_kind(&once), Some(once.clone()));
    }
}

#[test]
fn contains_rule() {
    assert_eq!(evaluate_one("hello world", "contains", "world", 1), None);
    assert_eq!(
        evaluate_one("hello world", "contains", "mars", 1),
        Some("检查点 #1 [包含] 响应体未包含: mars".to_string())
    );
}

#[test]
fn not_contains_rule() {
    assert_eq!(evaluate_one("hello", "not_contains", "bye", 2), None);
    assert_eq!(
        evaluate_one("hello", "NOT_CONTAINS", "ell", 2),
        Some("检查点 #2 [不包含] 响应体不应包含: ell".to_string())
    );
}

#[test]
fn equals_rule_reports_byte_lengths() {
    assert_eq!(evaluate_one("ok", "equals", "ok", 1), None);
    assert_eq!(
        evaluate_one("é", "equals", "ok!", 3),
        Some("检查点 #3 [等于] 响应体与预期不一致（长度 2 vs 3）".to_string())
    );
}

#[test]
fn regex_rules() {
    assert_eq!(evaluate_one("status: 200", "regex", r"\d{3}", 1), None);
    assert_eq!(
        evaluate_one("status: ok", "regex", r"\d{3}", 1),
        Some("检查点 #1 [正则匹配] 未匹配模式: \\d{3}".to_string())
    );
    assert_eq!(evaluate_one("status: ok", "not_regex", r"\d{3}", 4), None);
    assert_eq!(
        evaluate_one("status: 200", "not_regex", r"\d{3}", 4),
        Some("检查点 #4 [正则不匹配] 不应匹配模式: \\d{3}".to_string())
    );
}

#[test]
fn invalid_regex_reports_the_error() {
    let err = regex::Regex::new("(").unwrap_err().to_string();
    assert_eq!(
        evaluate_one("x", "regex", "(", 1),
        Some(format!("检查点 #1 [正则匹配] 无效正则: {}", err))
    );
    assert_eq!(
        evaluate_one("x", "not_regex", "(", 1),
        Some(format!("检查点 #1 [正则不匹配] 无效正则: {}", err))
    );
}

#[test]
fn unknown_kind_fails() {
    assert_eq!(
        evaluate_one("x", "Starts", "x", 7),
        Some("检查点 #7 未知类型: starts".to_string())
    );
}

#[test]
fn evaluate_all_returns_first_failure() {
    let rules = vec![rule("contains", "a"), rule("equals", "nope"), rule("contains", "zzz")];
    assert_eq!(
        evaluate_all("abc", &rules),
        Some("检查点 #2 [等于] 响应体与预期不一致（长度 3 vs 4）".to_string())
    );
}

#[test]
fn evaluate_all_passes_when_all_hold() {
    let rules = vec![rule("contains", "a"), rule("not_contains", "z"), rule("regex", "^ab")];
    assert_eq!(evaluate_all("abc", &rules), None);
    assert_eq!(evaluate_all("abc", &[]), None);
}

#[test]
fn long_values_are_cut_for_display() {
    let long = "a".repeat(100);
    let shown = truncate_display(&long);
    assert_eq!(shown, format!("{}…", "a".repeat(80)));
    assert_eq!(truncate_display("short"), "short");
    let exact = "b".repeat(80);
    assert_eq!(truncate_display(&exact), exact);
}

#[test]
fn display_cut_inside_a_character_is_detected() {
    // 79 ASCII bytes then a two-byte character: byte 80 is inside it.
    let v = format!("{}é{}", "a".repeat(79), "b".repeat(10));
    assert!(!value_can_be_shown(&v));
    let ok = format!("{}é{}", "a".repeat(78), "b".repeat(10));
    assert!(value_can_be_shown(&ok));
    assert_eq!(truncate_display(&ok), format!("{}é…", "a".repeat(78)));
    let rules = vec![rule("contains", &v)];
    assert!(!rules_are_evaluable("body", &rules));
    assert!(rules_are_evaluable(&v, &rules));
}

#[test]
fn opposite_kinds_disagree() {
    for body in ["abc", "xyz", ""] {
        for value in ["b", "q", ""] {
            let a = evaluate_one(body, "contains", value, 1).is_none();
            let b = evaluate_one(body, "not_contains", value, 1).is_none();
            assert!(a != b, "{:?} {:?}", body, value);
        }
        let r = evaluate_one(body, "regex", "^a", 1).is_none();
        let n = evaluate_one(body, "not_regex", "^a", 1).is_none();
        assert!(r != n);
        assert!(evaluate_one(body, "regex", "[", 1).is_some());
        assert!(evaluate_one(body, "not_regex", "[", 1).is_some());
    }
}
