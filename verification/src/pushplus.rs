//! PushPlus: what a reply means.
use vstd::prelude::*;
use vstd::string::StringExecFns;
use crate::text::{opt_text, text_equals};

verus! {

broadcast use vstd::string::group_string_axioms;

/// The `code` field of a PushPlus reply, with its JSON text.
#[derive(Debug, Clone)]
pub enum ReplyCode {
    /// A number: its value when it is an `i64`, and its JSON text.
    Number { as_i64: Option<i64>, text: String },
    /// A string: its value and its JSON text (quoted).
    Str { value: String, text: String },
    /// Any other JSON value, by its JSON text.
    Other { text: String },
}

/// The JSON text of a reply code.
pub open spec fn code_text(code: ReplyCode) -> Seq<char> {
    match code {
        ReplyCode::Number { text, .. } => text@,
        ReplyCode::Str { text, .. } => text@,
        ReplyCode::Other { text } => text@,
    }
}

/// A PushPlus reply: its code, its message and its data when that is a string.
#[derive(Debug, Clone)]
pub struct PushplusReply {
    pub code: ReplyCode,
    pub msg: Option<String>,
    pub data_text: Option<String>,
}

/// A reply code means success when it is the number 200 or the string "200".
pub open spec fn code_means_success(code: ReplyCode) -> bool {
    match code {
        ReplyCode::Number { as_i64, .. } => as_i64 == Some(200i64),
        ReplyCode::Str { value, .. } => value@ == "200"@,
        ReplyCode::Other { .. } => false,
    }
}

/// True when the reply code means success.
pub fn code_is_success(code: &ReplyCode) -> (r: bool)
    ensures
        r == code_means_success(*code),
{
    match code {
        ReplyCode::Number { as_i64, .. } => match as_i64 {
            Some(n) => *n == 200,
            None => false,
        },
        ReplyCode::Str { value, .. } => text_equals(value.as_str(), "200"),
        ReplyCode::Other { .. } => false,
    }
}

/// The description of a failed reply: `code <code>`, then the message and
/// the data when they are not empty, joined by `: `.
pub open spec fn api_error_text(code: ReplyCode, msg: Option<Seq<char>>, data: Option<Seq<char>>) -> Seq<
    char,
> {
    let head = "code "@ + code_text(code);
    let with_msg = match msg {
        Some(m) => if m.len() > 0 {
            head + ": "@ + m
        } else {
            head
        },
        None => head,
    };
    match data {
        Some(d) => if d.len() > 0 {
            with_msg + ": "@ + d
        } else {
            with_msg
        },
        None => with_msg,
    }
}

/// Describes a failed reply (see `api_error_text`).
pub fn format_api_error(code: &ReplyCode, msg: Option<&str>, data: Option<&str>) -> (r: String)
    ensures
        r@ == api_error_text(
            *code,
            match msg {
                Some(m) => Some(m@),
                None => None,
            },
            match data {
                Some(d) => Some(d@),
                None => None,
            },
        ),
{
    let mut out = "code ".to_owned();
    match code {
        ReplyCode::Number { text, .. } => out.append(text.as_str()),
        ReplyCode::Str { text, .. } => out.append(text.as_str()),
        ReplyCode::Other { text } => out.append(text.as_str()),
    }
    match msg {
        Some(m) => {
            if !m.is_empty() {
                out.append(": ");
                out.append(m);
            }
        },
        None => {},
    }
    match data {
        Some(d) => {
            if !d.is_empty() {
                out.append(": ");
                out.append(d);
            }
        },
        None => {},
    }
    out
}

/// What a parsed reply means: success, or the error `pushplus <description>`.
pub fn interpret_reply(reply: &PushplusReply) -> (r: Result<(), String>)
    ensures
        code_means_success(reply.code) ==> r is Ok,
        !code_means_success(reply.code) ==> (r matches Err(e) && e@ == "pushplus "@
            + api_error_text(reply.code, opt_text(reply.msg), opt_text(reply.data_text))),
{
    if code_is_success(&reply.code) {
        return Ok(());
    }
    let detail = format_api_error(
        &reply.code,
        match &reply.msg {
            Some(m) => Some(m.as_str()),
            None => None,
        },
        match &reply.data_text {
            Some(d) => Some(d.as_str()),
            None => None,
        },
    );
    let mut e = "pushplus ".to_owned();
    e.append(detail.as_str());
    Err(e)
}

/// A message needs a token: an empty one is refused before anything is sent.
pub fn check_token(token: &str) -> (r: Result<(), String>)
    ensures
        token@.len() == 0 ==> (r matches Err(e) && e@ == "pushplus token is empty"@),
        token@.len() > 0 ==> r is Ok,
{
    if token.is_empty() {
        Err("pushplus token is empty".to_owned())
    } else {
        Ok(())
    }
}

/// A reply means success exactly when its code is the number 200 or the
/// string "200".
pub proof fn lemma_success_codes(code: ReplyCode)
    ensures
        code_means_success(code) <==> (code matches ReplyCode::Number { as_i64, .. } && as_i64
            == Some(200i64)) || (code matches ReplyCode::Str { value, .. } && value@ == "200"@),
{
}

} // verus!
