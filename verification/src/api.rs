//! The rules of the HTTP API: validation of requests, defaults, merging of
//! updates, paging, and how errors are answered.
use vstd::prelude::*;
use vstd::string::StringExecFns;
use crate::checkpoints::{canonical_kind, is_known_kind, normalize_kind};
use crate::config;
use crate::models::{
    CheckpointInput, CreateHealthCheck, HealthCheck, TestFeishuRequest, UpdateHealthCheck,
};
use crate::text::{opt_text, trim_text, trimmed};

verus! {

broadcast use vstd::string::group_string_axioms;

/// Why a request failed.
#[derive(Debug)]
pub enum AppError {
    NotFound,
    BadRequest(String),
    Upstream(String),
    /// A database error, by its text.
    Db(String),
}

/// The HTTP status code and body text that answer an error.
pub open spec fn error_answer(e: AppError) -> (u16, Seq<char>) {
    match e {
        AppError::NotFound => (404, "not found"@),
        AppError::BadRequest(m) => (400, m@),
        AppError::Upstream(m) => (502, m@),
        AppError::Db(_) => (500, "internal error"@),
    }
}

impl AppError {
    /// The HTTP status code and body text that answer this error (a
    /// database error's own text is logged, not sent).
    pub fn answer(&self) -> (r: (u16, String))
        ensures
            (r.0, r.1@) == error_answer(*self),
    {
        match self {
            AppError::NotFound => (404, "not found".to_owned()),
            AppError::BadRequest(m) => (400, m.clone()),
            AppError::Upstream(m) => (502, m.clone()),
            AppError::Db(_) => (500, "internal error".to_owned()),
        }
    }
}

/// True when `e` is a bad request with message `m`.
pub open spec fn is_bad_request(e: AppError, m: Seq<char>) -> bool {
    e matches AppError::BadRequest(s) && s@ == m
}

/// The fields of a check as they are written to the database.
#[derive(Debug)]
pub struct CheckFields {
    pub name: String,
    pub url: String,
    pub method: String,
    pub expected_status: i64,
    pub interval_secs: i64,
    pub enabled: bool,
}

/// The shortest interval between probes, in seconds.
pub open spec fn min_interval() -> i64 {
    10
}

/// An interval raised to the shortest allowed one.
pub open spec fn bounded_interval(v: i64) -> i64 {
    if v < min_interval() {
        min_interval()
    } else {
        v
    }
}

fn at_least_ten(v: i64) -> (r: i64)
    ensures
        r == bounded_interval(v),
{
    if v < 10 {
        10
    } else {
        v
    }
}

/// Validates a creation request and fills in defaults: the name and URL are
/// trimmed and must not be blank; the method defaults to `GET`, the expected
/// status to 200, the interval to 60 seconds (and is at least 10), and the
/// check is enabled unless the request says otherwise.
pub fn plan_create(body: &CreateHealthCheck) -> (r: Result<CheckFields, AppError>)
    ensures
        trimmed(body.name@).len() == 0 || trimmed(body.url@).len() == 0 ==> (r matches Err(e)
            && is_bad_request(e, "name and url are required"@)),
        trimmed(body.name@).len() > 0 && trimmed(body.url@).len() > 0 ==> (r matches Ok(f) && {
            &&& f.name@ == trimmed(body.name@)
            &&& f.url@ == trimmed(body.url@)
            &&& f.method@ == match body.method {
                Some(m) => m@,
                None => "GET"@,
            }
            &&& f.expected_status == match body.expected_status {
                Some(s) => s,
                None => 200,
            }
            &&& f.interval_secs == bounded_interval(
                match body.interval_secs {
                    Some(i) => i,
                    None => 60,
                },
            )
            &&& f.enabled == match body.enabled {
                Some(e) => e,
                None => true,
            }
        }),
{
    let name = trim_text(body.name.as_str());
    let url = trim_text(body.url.as_str());
    if name.is_empty() || url.is_empty() {
        return Err(AppError::BadRequest("name and url are required".to_owned()));
    }
    let method = match &body.method {
        Some(m) => m.clone(),
        None => "GET".to_owned(),
    };
    let expected_status = match body.expected_status {
        Some(s) => s,
        None => 200,
    };
    let interval_secs = at_least_ten(
        match body.interval_secs {
            Some(i) => i,
            None => 60,
        },
    );
    let enabled = match body.enabled {
        Some(e) => e,
        None => true,
    };
    Ok(
        CheckFields {
            name: name.to_owned(),
            url: url.to_owned(),
            method,
            expected_status,
            interval_secs,
            enabled,
        },
    )
}

/// Applies an update to an existing check: every field that the update
/// gives replaces the stored one, the others are kept, and the interval is
/// at least 10 seconds.
pub fn merge_update(existing: &HealthCheck, body: &UpdateHealthCheck) -> (r: CheckFields)
    ensures
        r.name@ == match body.name {
            Some(n) => n@,
            None => existing.name@,
        },
        r.url@ == match body.url {
            Some(u) => u@,
            None => existing.url@,
        },
        r.method@ == match body.method {
            Some(m) => m@,
            None => existing.method@,
        },
        r.expected_status == match body.expected_status {
            Some(s) => s,
            None => existing.expected_status,
        },
        r.interval_secs == bounded_interval(
            match body.interval_secs {
                Some(i) => i,
                None => existing.interval_secs,
            },
        ),
        r.enabled == match body.enabled {
            Some(e) => e,
            None => existing.enabled,
        },
{
    CheckFields {
        name: match &body.name {
            Some(n) => n.clone(),
            None => existing.name.clone(),
        },
        url: match &body.url {
            Some(u) => u.clone(),
            None => existing.url.clone(),
        },
        method: match &body.method {
            Some(m) => m.clone(),
            None => existing.method.clone(),
        },
        expected_status: match body.expected_status {
            Some(s) => s,
            None => existing.expected_status,
        },
        interval_secs: at_least_ten(
            match body.interval_secs {
                Some(i) => i,
                None => existing.interval_secs,
            },
        ),
        enabled: match body.enabled {
            Some(e) => e,
            None => existing.enabled,
        },
    }
}

/// A checkpoint input with a blank value is refused with this message.
pub open spec fn blank_value_message() -> Seq<char> {
    "检查点预期值不能为空"@
}

/// A checkpoint input of an unknown kind is refused with this message.
pub open spec fn unknown_kind_message() -> Seq<char> {
    "不支持的检查点类型，可选: contains, equals, not_contains, regex, not_regex"@
}

/// Why one checkpoint input is refused, if it is.
pub open spec fn input_problem(item: CheckpointInput) -> Option<Seq<char>> {
    if trimmed(item.value@).len() == 0 {
        Some(blank_value_message())
    } else if !is_known_kind(canonical_kind(item.kind@)) {
        Some(unknown_kind_message())
    } else {
        None
    }
}

/// The first problem among `items[i..]`, if any.
pub open spec fn first_input_problem(items: Seq<CheckpointInput>, i: int) -> Option<Seq<char>>
    decreases items.len() - i,
{
    if i < 0 || i >= items.len() {
        None
    } else {
        match input_problem(items[i]) {
            Some(m) => Some(m),
            None => first_input_problem(items, i + 1),
        }
    }
}

/// `out` is `items` with each kind in canonical form.
pub open spec fn normalized_inputs(items: Seq<CheckpointInput>, out: Seq<CheckpointInput>) -> bool {
    &&& out.len() == items.len()
    &&& forall|j: int|
        0 <= j < items.len() ==> {
            &&& (#[trigger] out[j]).kind@ == canonical_kind(items[j].kind@)
            &&& out[j].value == items[j].value
            &&& out[j].enabled == items[j].enabled
        }
}

/// Checks and normalizes the checkpoints of a request: the first input with
/// a blank value or an unknown kind refuses the request; otherwise each kind
/// is trimmed and lowercased and the rest is kept.
pub fn normalize_checkpoint_inputs(items: Vec<CheckpointInput>) -> (r: Result<
    Vec<CheckpointInput>,
    AppError,
>)
    ensures
        match r {
            Ok(out) => first_input_problem(items@, 0) is None && normalized_inputs(items@, out@),
            Err(e) => first_input_problem(items@, 0) matches Some(m) && is_bad_request(e, m),
        },
{
    let mut out: Vec<CheckpointInput> = Vec::new();
    let mut i: usize = 0;
    while i < items.len()
        invariant
            i <= items@.len(),
            first_input_problem(items@, i as int) == first_input_problem(items@, 0),
            out@.len() == i,
            forall|j: int|
                0 <= j < i ==> {
                    &&& (#[trigger] out@[j]).kind@ == canonical_kind(items@[j].kind@)
                    &&& out@[j].value == items@[j].value
                    &&& out@[j].enabled == items@[j].enabled
                },
        decreases items@.len() - i,
    {
        let item = &items[i];
        if trim_text(item.value.as_str()).is_empty() {
            return Err(AppError::BadRequest("检查点预期值不能为空".to_owned()));
        }
        let kind = match normalize_kind(item.kind.as_str()) {
            Some(k) => k,
            None => {
                return Err(
                    AppError::BadRequest(
                        "不支持的检查点类型，可选: contains, equals, not_contains, regex, not_regex".to_owned(),
                    ),
                );
            },
        };
        out.push(CheckpointInput { kind, value: item.value.clone(), enabled: item.enabled });
        i = i + 1;
    }
    Ok(out)
}

/// The page of a history listing: at most 50 items unless asked otherwise,
/// never fewer than 1 nor more than 200, starting at the given offset (0 by default).
pub fn history_page(limit: Option<u32>, offset: Option<u32>) -> (r: (u32, u32))
    ensures
        r.0 == match limit {
            Some(l) => if l < 1 {
                1
            } else if l > 200 {
                200
            } else {
                l
            },
            None => 50,
        },
        1 <= r.0 <= 200,
        r.1 == match offset {
            Some(o) => o,
            None => 0,
        },
{
    let l = match limit {
        Some(l) => l,
        None => 50,
    };
    let l = if l < 1 {
        1
    } else if l > 200 {
        200
    } else {
        l
    };
    let o = match offset {
        Some(o) => o,
        None => 0,
    };
    (l, o)
}

/// A deletion that removed no row answers "not found".
pub fn deletion_outcome(rows_affected: u64) -> (r: Result<(), AppError>)
    ensures
        rows_affected == 0 <==> (r matches Err(e) && e is NotFound),
        rows_affected > 0 <==> r is Ok,
{
    if rows_affected == 0 {
        Err(AppError::NotFound)
    } else {
        Ok(())
    }
}

/// The webhook that a Feishu test message goes to: the one the request
/// gives, trimmed, when it is not blank; else the configured one, trimmed.
pub open spec fn feishu_test_url(cfg: config::FeishuConfig, requested: Option<Seq<char>>) -> Seq<
    char,
> {
    match requested {
        Some(u) => if trimmed(u).len() > 0 {
            trimmed(u)
        } else {
            trimmed(cfg.webhook_url@)
        },
        None => trimmed(cfg.webhook_url@),
    }
}

/// The webhook URL that a test request carries, if any.
pub open spec fn requested_url(request: Option<TestFeishuRequest>) -> Option<Seq<char>> {
    match request {
        Some(t) => opt_text(t.webhook_url),
        None => None,
    }
}

/// Where a Feishu test message goes (see `feishu_test_url`), when Feishu
/// alerts are enabled and that webhook is not blank.
pub fn feishu_test_target(cfg: &config::FeishuConfig, request: Option<&TestFeishuRequest>) -> (r:
    Result<String, AppError>)
    ensures
        !cfg.enabled ==> (r matches Err(e) && is_bad_request(e, "config.toml 中飞书告警未启用"@)),
        cfg.enabled && feishu_test_url(
            *cfg,
            requested_url(
                match request {
                    Some(t) => Some(*t),
                    None => None,
                },
            ),
        ).len() == 0 ==> (r matches Err(e) && is_bad_request(
            e,
            "config.toml 中未配置飞书 webhook_url"@,
        )),
        cfg.enabled && feishu_test_url(
            *cfg,
            requested_url(
                match request {
                    Some(t) => Some(*t),
                    None => None,
                },
            ),
        ).len() > 0 ==> (r matches Ok(u) && u@ == feishu_test_url(
            *cfg,
            requested_url(
                match request {
                    Some(t) => Some(*t),
                    None => None,
                },
            ),
        )),
{
    if !cfg.enabled {
        return Err(AppError::BadRequest("config.toml 中飞书告警未启用".to_owned()));
    }
    let configured = trim_text(cfg.webhook_url.as_str());
    let url = match request {
        Some(t) => match &t.webhook_url {
            Some(u) => {
                let given = trim_text(u.as_str());
                if given.is_empty() {
                    configured
                } else {
                    given
                }
            },
            None => configured,
        },
        None => configured,
    };
    if url.is_empty() {
        return Err(AppError::BadRequest("config.toml 中未配置飞书 webhook_url".to_owned()));
    }
    Ok(url.to_owned())
}

/// The token that a PushPlus test message uses: the configured one, trimmed,
/// when PushPlus alerts are enabled and it is not blank.
pub fn pushplus_test_target(cfg: &config::PushplusConfig) -> (r: Result<String, AppError>)
    ensures
        !cfg.enabled ==> (r matches Err(e) && is_bad_request(e, "config.toml 中 PushPlus 告警未启用"@)),
        cfg.enabled && trimmed(cfg.token@).len() == 0 ==> (r matches Err(e) && is_bad_request(
            e,
            "config.toml 中未配置 pushplus token"@,
        )),
        cfg.enabled && trimmed(cfg.token@).len() > 0 ==> (r matches Ok(t) && t@ == trimmed(
            cfg.token@,
        )),
{
    if !cfg.enabled {
        return Err(AppError::BadRequest("config.toml 中 PushPlus 告警未启用".to_owned()));
    }
    let token = trim_text(cfg.token.as_str());
    if token.is_empty() {
        return Err(AppError::BadRequest("config.toml 中未配置 pushplus token".to_owned()));
    }
    Ok(token.to_owned())
}

/// The text of a Feishu test message sent at `time`.
pub fn feishu_test_text(time: &str) -> (r: String)
    ensures
        r@ == "【测试消息】Are You Healthy 飞书告警通道正常。\n时间: "@ + time@,
{
    let mut out = "【测试消息】Are You Healthy 飞书告警通道正常。\n时间: ".to_owned();
    out.append(time);
    out
}

/// The title of a PushPlus test message.
pub fn pushplus_test_title() -> (r: String)
    ensures
        r@ == "Are You Healthy 测试消息"@,
{
    "Are You Healthy 测试消息".to_owned()
}

/// The content of a PushPlus test message sent at `time`.
pub fn pushplus_test_text(time: &str) -> (r: String)
    ensures
        r@ == "PushPlus 告警通道正常。\n时间: "@ + time@,
{
    let mut out = "PushPlus 告警通道正常。\n时间: ".to_owned();
    out.append(time);
    out
}

/// The answer to a Feishu test: success, or an upstream error when the
/// message was not delivered.
pub fn feishu_test_outcome(delivered: bool) -> (r: Result<(), AppError>)
    ensures
        delivered ==> r is Ok,
        !delivered ==> (r matches Err(e) && e matches AppError::Upstream(m) && m@
            == "飞书发送失败，详见告警历史"@),
{
    if delivered {
        Ok(())
    } else {
        Err(AppError::Upstream("飞书发送失败，详见告警历史".to_owned()))
    }
}

/// The answer to a PushPlus test: success, or an upstream error when the
/// message was not delivered.
pub fn pushplus_test_outcome(delivered: bool) -> (r: Result<(), AppError>)
    ensures
        delivered ==> r is Ok,
        !delivered ==> (r matches Err(e) && e matches AppError::Upstream(m) && m@
            == "PushPlus 发送失败，详见告警历史"@),
{
    if delivered {
        Ok(())
    } else {
        Err(AppError::Upstream("PushPlus 发送失败，详见告警历史".to_owned()))
    }
}

proof fn lemma_first_input_problem_from(items: Seq<CheckpointInput>, i: int)
    requires
        0 <= i <= items.len(),
    ensures
        first_input_problem(items, i) is None <==> forall|j: int|
            i <= j < items.len() ==> trimmed((#[trigger] items[j]).value@).len() > 0
                && is_known_kind(canonical_kind(items[j].kind@)),
    decreases items.len() - i,
{
    if i < items.len() {
        lemma_first_input_problem_from(items, i + 1);
    }
}

/// A request's checkpoints are accepted exactly when every value is not
/// blank and every kind is known once trimmed and lowercased.
pub proof fn lemma_inputs_accepted(items: Seq<CheckpointInput>)
    ensures
        first_input_problem(items, 0) is None <==> forall|j: int|
            0 <= j < items.len() ==> trimmed((#[trigger] items[j]).value@).len() > 0
                && is_known_kind(canonical_kind(items[j].kind@)),
{
    lemma_first_input_problem_from(items, 0);
}

} // verus!
