//! One probe of a health check: the request as shown to users, the response
//! as shown to users, and the verdict drawn from the response.
use vstd::prelude::*;
use vstd::string::StringExecFns;
use crate::checkpoints::{
    evaluate_all, first_failure, lemma_first_failure, rule_failure, rules_evaluable, CheckpointRule,
};
use crate::config::AppConfig;
use crate::text::{
    byte_len, chars_of, decimal, fit_count, fit_prefix, lemma_fit_count, opt_text, push_chars,
    push_decimal, push_signed_decimal, signed_decimal, text_byte_len, text_equals, uppercase,
    uppercase_text,
};

verus! {

broadcast use vstd::string::group_string_axioms;

/// What one probe found.
#[derive(Debug)]
pub struct CheckProbeResult {
    pub status: String,
    pub response_ms: Option<i64>,
    pub error: Option<String>,
    pub request_message: String,
    pub response_message: Option<String>,
}

/// How many bytes of a response body a probe keeps.
pub fn capture_max_bytes(cfg: &AppConfig) -> (r: usize)
    ensures
        r == cfg.probe.capture_max_bytes,
{
    cfg.probe.capture_max_bytes
}

/// The request as shown to users: the uppercased method and the URL, and for
/// `POST` an empty line and `(empty body)`.
pub open spec fn request_message_text(method: Seq<char>, url: Seq<char>) -> Seq<char> {
    let m = uppercase(method);
    if m == "POST"@ {
        m + " "@ + url + "\n\n(empty body)"@
    } else {
        m + " "@ + url
    }
}

/// Builds the request as shown to users.
pub fn build_request_message(method: &str, url: &str) -> (r: String)
    ensures
        r@ == request_message_text(method@, url@),
{
    let method = uppercase_text(method);
    let mut out = method.clone();
    out.append(" ");
    out.append(url);
    if text_equals(method.as_str(), "POST") {
        out.append("\n\n(empty body)");
    }
    out
}

/// A response body as kept for display and checkpoints: unchanged when it
/// fits in `max` bytes, else its longest prefix that fits, cut on a character
/// boundary, followed by a note of the full size.
pub open spec fn truncated_body(body: Seq<char>, max: nat) -> Seq<char> {
    if byte_len(body) <= max {
        body
    } else {
        body.take(fit_count(body, max as int) as int) + "\n\n[truncated, "@ + decimal(byte_len(body))
            + " bytes total]"@
    }
}

/// Keeps at most `max_bytes` bytes of a body (see `truncated_body`).
pub fn truncate_body(body: &str, max_bytes: usize) -> (r: String)
    ensures
        r@ == truncated_body(body@, max_bytes as nat),
        byte_len(body@) > max_bytes ==> byte_len(body@.take(fit_count(body@, max_bytes as int) as int))
            <= max_bytes,
{
    let total = text_byte_len(body);
    if total <= max_bytes {
        return body.to_owned();
    }
    let cs = chars_of(body);
    let k = fit_prefix(&cs, max_bytes);
    proof {
        lemma_fit_count(cs@, max_bytes as int);
    }
    let mut out = String::new();
    push_chars(&mut out, &cs, 0, k);
    out.append("\n\n[truncated, ");
    push_decimal(&mut out, total as u64);
    out.append(" bytes total]");
    assert(out@ =~= truncated_body(body@, max_bytes as nat));
    out
}

// ---------------------------------------------------------------------------
// Methods
// ---------------------------------------------------------------------------

/// A character allowed in an HTTP method token.
pub open spec fn is_token_char(c: char) -> bool {
    ||| 'a' <= c <= 'z'
    ||| 'A' <= c <= 'Z'
    ||| '0' <= c <= '9'
    ||| c == '!' || c == '#' || c == '$' || c == '%' || c == '&' || c == '\''
    ||| c == '*' || c == '+' || c == '-' || c == '.' || c == '^' || c == '_'
    ||| c == '`' || c == '|' || c == '~'
}

/// True when `m` is a method that the HTTP client accepts: one or more token characters.
pub open spec fn is_valid_method(m: Seq<char>) -> bool {
    m.len() > 0 && forall|i: int| 0 <= i < m.len() ==> is_token_char(#[trigger] m[i])
}

/// `reqwest::Method::from_str` (the `http` crate's parser): accepts exactly
/// a nonempty string of token characters.
#[verifier::external_body]
fn method_parses(m: &str) -> (r: bool)
    ensures
        r == is_valid_method(m@),
{
    m.parse::<reqwest::Method>().is_ok()
}

/// How a probe begins: either the method is refused, which is the probe's
/// result, or the request is sent with the given uppercased method.
pub enum ProbeStart {
    Refused(CheckProbeResult),
    Send { method: String, head_only: bool, request_message: String },
}

/// Decides how a probe begins. A method that the HTTP client refuses gives
/// status `error` with `unsupported method: <METHOD>`; otherwise the request
/// is sent, reading no body when the method is `HEAD`.
pub fn start_probe(method: &str, url: &str) -> (r: ProbeStart)
    ensures
        match r {
            ProbeStart::Refused(res) => {
                &&& !is_valid_method(uppercase(method@))
                &&& res.status@ == "error"@
                &&& res.response_ms is None
                &&& res.error matches Some(e) && e@ == "unsupported method: "@ + uppercase(method@)
                &&& res.request_message@ == request_message_text(method@, url@)
                &&& res.response_message is None
            },
            ProbeStart::Send { method: m, head_only, request_message } => {
                &&& is_valid_method(uppercase(method@))
                &&& m@ == uppercase(method@)
                &&& head_only == (m@ == "HEAD"@)
                &&& request_message@ == request_message_text(method@, url@)
            },
        },
{
    let request_message = build_request_message(method, url);
    let upper = uppercase_text(method);
    if !method_parses(upper.as_str()) {
        let mut err = "unsupported method: ".to_owned();
        err.append(upper.as_str());
        return ProbeStart::Refused(
            CheckProbeResult {
                status: "error".to_owned(),
                response_ms: None,
                error: Some(err),
                request_message,
                response_message: None,
            },
        );
    }
    let head_only = text_equals(upper.as_str(), "HEAD");
    ProbeStart::Send { method: upper, head_only, request_message }
}

/// The probe's result when the request could not be sent or answered.
pub fn transport_failure(request_message: String, error: String) -> (r: CheckProbeResult)
    ensures
        r.status@ == "down"@,
        r.response_ms is None,
        r.error == Some(error),
        r.request_message == request_message,
        r.response_message is None,
{
    CheckProbeResult {
        status: "down".to_owned(),
        response_ms: None,
        error: Some(error),
        request_message,
        response_message: None,
    }
}

// ---------------------------------------------------------------------------
// Responses
// ---------------------------------------------------------------------------

/// One response header: its name, and its value when it is visible ASCII.
#[derive(Debug, Clone)]
pub struct HeaderLine {
    pub name: String,
    pub value: Option<String>,
}

/// A header as shown: `name: value`, with `[binary]` for a value that is not text.
pub open spec fn header_text(h: HeaderLine) -> Seq<char> {
    h.name@ + ": "@ + match h.value {
        Some(v) => v@,
        None => "[binary]"@,
    }
}

/// The header lines, each preceded by a line break.
pub open spec fn headers_text(hs: Seq<HeaderLine>) -> Seq<char>
    decreases hs.len(),
{
    if hs.len() == 0 {
        Seq::empty()
    } else {
        headers_text(hs.drop_last()) + "\n"@ + header_text(hs.last())
    }
}

/// The response as shown to users: `HTTP/1.1 <status>`, the headers, and
/// (unless only the head was asked for) an empty line and either the kept
/// body or a note that reading it failed.
pub open spec fn response_message_text(
    status: Seq<char>,
    headers: Seq<HeaderLine>,
    head_only: bool,
    body: Result<String, String>,
    max: nat,
) -> Seq<char> {
    let head = "HTTP/1.1 "@ + status + headers_text(headers);
    if head_only {
        head
    } else {
        match body {
            Ok(b) => head + "\n"@ + "\n"@ + truncated_body(b@, max),
            Err(e) => head + "\n"@ + "\n"@ + "[failed to read body: "@ + e@ + "]"@,
        }
    }
}

/// The part of a response that checkpoints look at: the kept body, or
/// nothing when only the head was read or reading the body failed.
pub open spec fn checked_body_text(head_only: bool, body: Result<String, String>, max: nat) -> Seq<
    char,
> {
    if head_only {
        Seq::empty()
    } else {
        match body {
            Ok(b) => truncated_body(b@, max),
            Err(_) => Seq::empty(),
        }
    }
}

/// Builds the response as shown to users and the text that checkpoints read.
pub fn read_response(
    status: &str,
    headers: &Vec<HeaderLine>,
    head_only: bool,
    body: Result<String, String>,
    max_body: usize,
) -> (r: (String, String))
    ensures
        r.0@ == response_message_text(status@, headers@, head_only, body, max_body as nat),
        r.1@ == checked_body_text(head_only, body, max_body as nat),
{
    let mut out = "HTTP/1.1 ".to_owned();
    out.append(status);
    let ghost start = out@;
    let mut i: usize = 0;
    while i < headers.len()
        invariant
            i <= headers@.len(),
            out@ == start + headers_text(headers@.take(i as int)),
        decreases headers@.len() - i,
    {
        let h = &headers[i];
        out.append("\n");
        out.append(h.name.as_str());
        out.append(": ");
        match &h.value {
            Some(v) => out.append(v.as_str()),
            None => out.append("[binary]"),
        }
        proof {
            assert(headers@.take(i + 1).drop_last() =~= headers@.take(i as int));
            assert(out@ =~= start + headers_text(headers@.take(i + 1)));
        }
        i = i + 1;
    }
    assert(headers@.take(headers@.len() as int) =~= headers@);
    if head_only {
        return (out, String::new());
    }
    out.append("\n");
    out.append("\n");
    match body {
        Ok(b) => {
            let kept = truncate_body(b.as_str(), max_body);
            out.append(kept.as_str());
            (out, kept)
        },
        Err(e) => {
            out.append("[failed to read body: ");
            out.append(e.as_str());
            out.append("]");
            (out, String::new())
        },
    }
}

/// The verdict on a response: down with `status <code> (expected <n>)` when
/// the code differs; down when checkpoints exist but only the head was read;
/// down with the first failing checkpoint's message; else up.
pub open spec fn response_verdict(
    code: i64,
    expected_status: i64,
    head_only: bool,
    body: Seq<char>,
    rules: Seq<CheckpointRule>,
) -> (Seq<char>, Option<Seq<char>>) {
    if code != expected_status {
        (
            "down"@,
            Some(
                "status "@ + signed_decimal(code as int) + " (expected "@ + signed_decimal(
                    expected_status as int,
                ) + ")"@,
            ),
        )
    } else if rules.len() > 0 && head_only {
        ("down"@, Some("HEAD 请求无响应体，无法执行检查点"@))
    } else {
        match first_failure(body, rules) {
            Some(m) => ("down"@, Some(m)),
            None => ("up"@, None),
        }
    }
}

/// A response with the expected code and no checkpoints is up, whether or
/// not only the head was read.
pub proof fn lemma_expected_code_without_rules_is_up(
    code: i64,
    head_only: bool,
    body: Seq<char>,
    rules: Seq<CheckpointRule>,
)
    requires
        rules.len() == 0,
    ensures
        response_verdict(code, code, head_only, body, rules) == ("up"@, None::<Seq<char>>),
{
}

/// A response with another code than the expected one is down, with the
/// code and the expected code in the reason, whatever the body and rules.
pub proof fn lemma_unexpected_code_is_down(
    code: i64,
    expected_status: i64,
    head_only: bool,
    body: Seq<char>,
    rules: Seq<CheckpointRule>,
)
    requires
        code != expected_status,
    ensures
        response_verdict(code, expected_status, head_only, body, rules) == (
            "down"@,
            Some(
                "status "@ + signed_decimal(code as int) + " (expected "@ + signed_decimal(
                    expected_status as int,
                ) + ")"@,
            ),
        ),
{
}

/// A response is up exactly when it has the expected code, was read with
/// its body whenever there are checkpoints, and every checkpoint holds; when
/// it is up there is no reason, and when it is down there is one.
pub proof fn lemma_up_exactly_when_everything_holds(
    code: i64,
    expected_status: i64,
    head_only: bool,
    body: Seq<char>,
    rules: Seq<CheckpointRule>,
)
    ensures
        response_verdict(code, expected_status, head_only, body, rules).0 == "up"@ <==> (code
            == expected_status && !(rules.len() > 0 && head_only) && forall|j: int|
            0 <= j < rules.len() ==> #[trigger] rule_failure(body, rules, j) is None),
        response_verdict(code, expected_status, head_only, body, rules).0 == "up"@
            <==> response_verdict(code, expected_status, head_only, body, rules).1 is None,
{
    reveal_strlit("up");
    reveal_strlit("down");
    assert("up"@.len() != "down"@.len());
    lemma_first_failure(body, rules);
}

/// True when the verdict's checkpoint evaluation does not cut a value inside a character.
pub open spec fn verdict_evaluable(
    code: i64,
    expected_status: i64,
    head_only: bool,
    body: Seq<char>,
    rules: Seq<CheckpointRule>,
) -> bool {
    code == expected_status && !(rules.len() > 0 && head_only) ==> rules_evaluable(body, rules)
}

/// Judges a response (see `response_verdict`).
pub fn judge_response(
    code: i64,
    expected_status: i64,
    head_only: bool,
    body: &str,
    rules: &[CheckpointRule],
) -> (r: (String, Option<String>))
    requires
        verdict_evaluable(code, expected_status, head_only, body@, rules@),
    ensures
        (r.0@, opt_text(r.1)) == response_verdict(code, expected_status, head_only, body@, rules@),
{
    if code != expected_status {
        let mut e = "status ".to_owned();
        push_signed_decimal(&mut e, code);
        e.append(" (expected ");
        push_signed_decimal(&mut e, expected_status);
        e.append(")");
        ("down".to_owned(), Some(e))
    } else if rules.len() > 0 && head_only {
        ("down".to_owned(), Some("HEAD 请求无响应体，无法执行检查点".to_owned()))
    } else {
        match evaluate_all(body, rules) {
            Some(m) => ("down".to_owned(), Some(m)),
            None => ("up".to_owned(), None),
        }
    }
}

/// The probe's result once a response arrived after `ms` milliseconds.
pub fn answered_probe(
    request_message: String,
    ms: i64,
    code: i64,
    expected_status: i64,
    head_only: bool,
    response_message: String,
    checked_body: &str,
    rules: &[CheckpointRule],
) -> (r: CheckProbeResult)
    requires
        verdict_evaluable(code, expected_status, head_only, checked_body@, rules@),
    ensures
        (r.status@, opt_text(r.error)) == response_verdict(
            code,
            expected_status,
            head_only,
            checked_body@,
            rules@,
        ),
        r.response_ms == Some(ms),
        r.request_message == request_message,
        r.response_message == Some(response_message),
{
    let (status, error) = judge_response(code, expected_status, head_only, checked_body, rules);
    CheckProbeResult {
        status,
        response_ms: Some(ms),
        error,
        request_message,
        response_message: Some(response_message),
    }
}

/// The probe's result once a response arrived, or `None` when judging it
/// would cut a checkpoint value inside a character (where `answered_probe`
/// may not be called).
pub fn answered_probe_checked(
    request_message: String,
    ms: i64,
    code: i64,
    expected_status: i64,
    head_only: bool,
    response_message: String,
    checked_body: &str,
    rules: &[CheckpointRule],
) -> (r: Option<CheckProbeResult>)
    ensures
        r is None <==> !verdict_evaluable(code, expected_status, head_only, checked_body@, rules@),
        r matches Some(p) ==> {
            &&& (p.status@, opt_text(p.error)) == response_verdict(
                code,
                expected_status,
                head_only,
                checked_body@,
                rules@,
            )
            &&& p.response_ms == Some(ms)
            &&& p.request_message == request_message
            &&& p.response_message == Some(response_message)
        },
{
    if verdict_is_evaluable(code, expected_status, head_only, checked_body, rules) {
        Some(
            answered_probe(
                request_message,
                ms,
                code,
                expected_status,
                head_only,
                response_message,
                checked_body,
                rules,
            ),
        )
    } else {
        None
    }
}

/// True when judging a response cannot cut a checkpoint value inside a character.
pub fn verdict_is_evaluable(
    code: i64,
    expected_status: i64,
    head_only: bool,
    body: &str,
    rules: &[CheckpointRule],
) -> (r: bool)
    ensures
        r == verdict_evaluable(code, expected_status, head_only, body@, rules@),
{
    if code == expected_status && !(rules.len() > 0 && head_only) {
        crate::checkpoints::rules_are_evaluable(body, rules)
    } else {
        true
    }
}

/// A body that fits is kept whole; a longer one keeps its longest prefix
/// that fits, followed by a note of the full size in bytes.
pub proof fn lemma_truncated_body(body: Seq<char>, max: nat)
    ensures
        byte_len(body) <= max ==> truncated_body(body, max) == body,
        byte_len(body) > max ==> ({
            let k = fit_count(body, max as int) as int;
            &&& truncated_body(body, max) == body.take(k) + "\n\n[truncated, "@ + decimal(
                byte_len(body),
            ) + " bytes total]"@
            &&& k < body.len()
            &&& byte_len(body.take(k)) <= max
            &&& byte_len(body.take(k + 1)) > max
        }),
{
    lemma_fit_count(body, max as int);
    if byte_len(body) > max {
        assert(body.take(body.len() as int) =~= body);
    }
}

/// The request as shown begins with the uppercased method, a space and the
/// URL; only a `POST` adds the empty-body note.
pub proof fn lemma_request_message(method: Seq<char>, url: Seq<char>)
    ensures
        uppercase(method) == "POST"@ ==> request_message_text(method, url) == uppercase(method)
            + " "@ + url + "\n\n(empty body)"@,
        uppercase(method) != "POST"@ ==> request_message_text(method, url) == uppercase(method)
            + " "@ + url,
{
}

} // verus!
