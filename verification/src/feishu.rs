//! Feishu robot webhooks: what is checked before and after sending.
use vstd::prelude::*;
use vstd::string::StringExecFns;

verus! {

broadcast use vstd::string::group_string_axioms;

/// A message needs a webhook: an empty one is refused before anything is sent.
pub fn check_webhook(webhook_url: &str) -> (r: Result<(), String>)
    ensures
        webhook_url@.len() == 0 ==> (r matches Err(e) && e@ == "webhook url is empty"@),
        webhook_url@.len() > 0 ==> r is Ok,
{
    if webhook_url.is_empty() {
        Err("webhook url is empty".to_owned())
    } else {
        Ok(())
    }
}

/// True when an HTTP status code means success (200 to 299), as
/// `StatusCode::is_success` answers.
pub fn status_is_success(code: u16) -> (r: bool)
    ensures
        r == (200 <= code <= 299),
{
    200 <= code && code <= 299
}

/// The error for a webhook that answered with a status that is not success.
pub fn webhook_failure(status: &str, body: &str) -> (r: String)
    ensures
        r@ == "feishu webhook failed: "@ + status@ + " "@ + body@,
{
    let mut e = "feishu webhook failed: ".to_owned();
    e.append(status);
    e.append(" ");
    e.append(body);
    e
}

} // verus!
