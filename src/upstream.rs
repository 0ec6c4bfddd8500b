//! The upstream client's reply handling: a reply with a success status hands
//! its body on; any other reply, or a failed exchange, becomes one error message.

use vstd::prelude::*;

verus! {

/// The `message` member of the JSON object in `body`, when `body` is a JSON
/// object whose `message` member is a string.
pub uninterp spec fn json_message_of(body: Seq<u8>) -> Option<Seq<char>>;

/// Relies on `serde_json::from_slice`, which reads `body` as a JSON object into
/// a map from member name to value, or fails; the `message` member is taken
/// when it is a JSON string.
#[verifier::external_body]
fn json_message(body: &[u8]) -> (r: Option<String>)
    ensures
        match r {
            Some(m) => json_message_of(body@) == Some(m@),
            None => json_message_of(body@) is None,
        },
{
    match serde_json::from_slice::<std::collections::BTreeMap<String, serde_json::Value>>(body) {
        Ok(mut members) => match members.remove("message") {
            Some(serde_json::Value::String(m)) => Some(m),
            _ => None,
        },
        Err(_) => None,
    }
}

/// A status in the success range.
pub open spec fn is_success(status: u16) -> bool {
    200 <= status <= 299
}

/// The message of a failed reply whose body carries none.
pub open spec fn fallback_message() -> Seq<char> {
    "Something went wrong with the request"@
}

/// The message that a reply with a failure status becomes.
pub open spec fn upstream_message(body: Seq<u8>) -> Seq<char> {
    match json_message_of(body) {
        Some(m) => m,
        None => fallback_message(),
    }
}

/// The error message of a failed reply, given the `message` read from its body.
pub fn failure_text(message: Option<String>) -> (r: String)
    ensures
        r@ == match message {
            Some(m) => m@,
            None => fallback_message(),
        },
{
    match message {
        Some(m) => m,
        None => String::from_str("Something went wrong with the request"),
    }
}

/// What came back from one upstream exchange.
#[derive(Debug, Clone)]
pub enum Reply {
    /// The exchange itself failed: no connection, or no complete response.
    Failed,
    /// A response arrived.
    Answered { status: u16, body: Vec<u8> },
}

/// The outcome of a reply with the given status: `Ok` in the success range, else
/// the body's `message`, or a fixed message when the body has none.
pub fn status_outcome(status: u16, body: &[u8]) -> (r: Result<(), String>)
    ensures
        is_success(status) ==> r is Ok,
        !is_success(status) ==> (r matches Err(m) && m@ == upstream_message(body@)),
{
    if 200 <= status && status <= 299 {
        Ok(())
    } else {
        Err(failure_text(json_message(body)))
    }
}

/// What `handle_response_errors` gives for `reply`: `failure` for a failed
/// exchange, the body for a success status, else the upstream message.
pub open spec fn handles_reply(reply: Reply, failure: Seq<char>, r: Result<Vec<u8>, String>) -> bool {
    &&& reply is Failed ==> (r matches Err(m) && m@ == failure)
    &&& reply matches Reply::Answered { status, body } ==> if is_success(status) {
        r matches Ok(b) && b@ == body@
    } else {
        r matches Err(m) && m@ == upstream_message(body@)
    }
}

/// The body of a successful reply, or the error message of a field: `failure`
/// when the exchange failed, the upstream message when the status is not a success.
pub fn handle_response_errors(reply: Reply, failure: &str) -> (r: Result<Vec<u8>, String>)
    ensures
        handles_reply(reply, failure@, r),
{
    match reply {
        Reply::Failed => Err(String::from_str(failure)),
        Reply::Answered { status, body } => match status_outcome(status, body.as_slice()) {
            Ok(()) => Ok(body),
            Err(m) => Err(m),
        },
    }
}

} // verus!
