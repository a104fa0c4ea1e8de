//! The log of alert deliveries: what one delivery attempt records.
use vstd::prelude::*;

verus! {

broadcast use vstd::string::group_string_axioms;

/// What a delivery is about: its kind (`test`, `down`, ...) and the check, if any.
#[derive(Clone, Debug)]
pub struct AlertLogContext {
    pub kind: String,
    pub check_id: Option<i64>,
    pub check_name: Option<String>,
}

/// What is recorded of one delivery attempt.
#[derive(Debug)]
pub struct DeliveryRecord {
    pub status: String,
    pub error: Option<String>,
}

/// Records the outcome of a delivery: `ok`, or `failed` with the error's text.
pub fn delivery_record(result: Result<(), String>) -> (r: DeliveryRecord)
    ensures
        result is Ok ==> r.status@ == "ok"@ && r.error is None,
        result matches Err(e) ==> r.status@ == "failed"@ && r.error == Some(e),
        (r.status@ == "ok"@) == result is Ok,
{
    proof {
        reveal_strlit("ok");
        reveal_strlit("failed");
        assert("ok"@.len() != "failed"@.len());
    }
    match result {
        Ok(()) => DeliveryRecord { status: "ok".to_owned(), error: None },
        Err(e) => DeliveryRecord { status: "failed".to_owned(), error: Some(e) },
    }
}

/// True when the recorded delivery succeeded.
pub fn delivered(record: &DeliveryRecord) -> (r: bool)
    ensures
        r == (record.status@ == "ok"@),
{
    crate::text::text_equals(record.status.as_str(), "ok")
}

} // verus!
