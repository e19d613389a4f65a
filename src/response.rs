//! How the gateway's answer maps onto the notification's identifier or an
//! [`ApiError`].
use vstd::prelude::*;
use vstd::string::*;

use crate::error::ApiError;

verus! {

/// The reason that a JSON object carries as the string field `reason`, if
/// the bytes are such an object.
pub uninterp spec fn json_reason(body: Seq<u8>) -> Option<Seq<char>>;

/// An optional string as text.
pub open spec fn opt_text(s: Option<String>) -> Option<Seq<char>> {
    match s {
        Some(t) => Some(t@),
        None => None,
    }
}

/// A status of the success class, 200 to 299.
pub open spec fn is_success(status: u16) -> bool {
    200 <= status <= 299
}

/// The reason an [`ApiError`] carries: the gateway's own, or `"unknown"`
/// where none could be read.
pub open spec fn reason_text(reason: Option<Seq<char>>) -> Seq<char> {
    match reason {
        Some(r) => r,
        None => "unknown"@,
    }
}

/// Relies on serde_json's `from_slice` into a `serde_json::Value`, then on
/// `Value::get` and `Value::as_str`: the string under `reason` of a JSON
/// object, which depends on the bytes alone.
#[verifier::external_body]
fn reason_field(body: &[u8]) -> (r: Option<String>)
    ensures
        opt_text(r) == json_reason(body@),
{
    match serde_json::from_slice::<serde_json::Value>(body) {
        Ok(v) => v.get("reason").and_then(|f| f.as_str()).map(|f| f.to_string()),
        Err(_) => None,
    }
}

/// The outcome of a delivery from the gateway's status and the reason read
/// from its answer, if any: the identifier on success, else an [`ApiError`].
pub fn classify_reason(status: u16, reason: Option<String>, id: u128) -> (r: Result<u128, ApiError>)
    ensures
        is_success(status) ==> r == Ok::<u128, ApiError>(id),
        !is_success(status) ==> (r matches Err(e) && e.status == status as u32 && e.reason@
            == reason_text(opt_text(reason))),
{
    if 200 <= status && status <= 299 {
        Ok(id)
    } else {
        let reason = match reason {
            Some(r) => r,
            None => String::from_str("unknown"),
        };
        Err(ApiError { status: status as u32, reason })
    }
}

/// The outcome of a delivery from the gateway's status and answer body. On
/// success the body is not read.
pub fn classify(status: u16, body: &[u8], id: u128) -> (r: Result<u128, ApiError>)
    ensures
        is_success(status) ==> r == Ok::<u128, ApiError>(id),
        !is_success(status) ==> (r matches Err(e) && e.status == status as u32 && e.reason@
            == reason_text(json_reason(body@))),
{
    if 200 <= status && status <= 299 {
        Ok(id)
    } else {
        classify_reason(status, reason_field(body), id)
    }
}

} // verus!
