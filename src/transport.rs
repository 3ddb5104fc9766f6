//! The request side and the reply side of one call to the remote service.
use vstd::prelude::*;

use crate::json::{
    array_elements, encode_document, error_message, json_array, json_bool, json_i64, json_member,
    json_text, member, parse_document, parsed,
};

verus! {

/// Why a call to the remote service did not produce a result.
#[derive(Debug)]
pub enum ApiError {
    /// The request could not be encoded, or the reply could not be parsed.
    Transport(String),
    /// The service answered `ok: false` with this numeric error code.
    Rejected(i64),
    /// The service answered `ok: false` without a numeric error code.
    MalformedEnvelope,
}

/// What the service's envelope amounts to, judged from its `ok` and
/// `error_code` members: a result, a rejection with a code, or neither.
pub enum Verdict {
    Accepted,
    Rejected(i64),
    Malformed,
}

/// An envelope carries a result only where `ok` is `true`; otherwise a numeric
/// `error_code` makes it a rejection, and its absence makes it malformed.
pub open spec fn verdict(ok: Option<bool>, error_code: Option<i64>) -> Verdict {
    if ok == Some(true) {
        Verdict::Accepted
    } else {
        match error_code {
            Some(c) => Verdict::Rejected(c),
            None => Verdict::Malformed,
        }
    }
}

/// What a call gives back for an envelope: its `result` where it is accepted,
/// else the error that its verdict names.
pub open spec fn envelope_outcome(
    ok: Option<bool>,
    error_code: Option<i64>,
    result: serde_json::Value,
) -> Result<serde_json::Value, ApiError> {
    match verdict(ok, error_code) {
        Verdict::Accepted => Ok(result),
        Verdict::Rejected(c) => Err(ApiError::Rejected(c)),
        Verdict::Malformed => Err(ApiError::MalformedEnvelope),
    }
}

/// The address of `method` for the bot whose token is `token`.
pub open spec fn api_url_spec(token: Seq<char>, method: Seq<char>) -> Seq<char> {
    "https://api.telegram.org/bot"@ + token + "/"@ + method
}

/// The address that a call of `method` is posted to, with the token in its path.
pub fn api_url(token: &str, method: &str) -> (r: String)
    ensures
        r@ == api_url_spec(token@, method@),
{
    let mut url = String::from_str("https://api.telegram.org/bot");
    url.append(token);
    url.append("/");
    url.append(method);
    url
}

/// Judges an envelope from its `ok` member (as a boolean, if it is one), its
/// `error_code` member (as an integer, if it is one) and its `result` member.
pub fn interpret_envelope(ok: Option<bool>, error_code: Option<i64>, result: serde_json::Value) -> (r:
    Result<serde_json::Value, ApiError>)
    ensures
        verdict(ok, error_code) == Verdict::Accepted ==> r == Ok::<serde_json::Value, ApiError>(
            result,
        ),
        verdict(ok, error_code) matches Verdict::Rejected(c) ==> r == Err::<
            serde_json::Value,
            ApiError,
        >(ApiError::Rejected(c)),
        verdict(ok, error_code) == Verdict::Malformed ==> r == Err::<serde_json::Value, ApiError>(
            ApiError::MalformedEnvelope,
        ),
        r == envelope_outcome(ok, error_code, result),
{
    match ok {
        Some(true) => Ok(result),
        _ => match error_code {
            Some(c) => Err(ApiError::Rejected(c)),
            None => Err(ApiError::MalformedEnvelope),
        },
    }
}

/// Decodes the body of a reply from the service: its `result` where the
/// envelope says `ok`, else the error that the envelope gives; a body that is no
/// JSON document is a transport error.
pub fn decode_reply(body: &[u8]) -> (r: Result<serde_json::Value, ApiError>)
    ensures
        parsed(body@) is None ==> r matches Err(ApiError::Transport(_)),
        parsed(body@) matches Some(d) ==> r == envelope_outcome(
            json_bool(json_member(d, "ok"@)),
            json_i64(json_member(d, "error_code"@)),
            json_member(d, "result"@),
        ),
{
    match parse_document(body) {
        Err(e) => Err(ApiError::Transport(error_message(&e))),
        Ok(doc) => {
            let ok = member(&doc, "ok").as_bool();
            let code = member(&doc, "error_code").as_i64();
            let result = member(&doc, "result").clone();
            interpret_envelope(ok, code, result)
        },
    }
}

/// The body of a call: the JSON text of its arguments.
pub fn request_body(args: &serde_json::Value) -> (r: Result<Vec<u8>, ApiError>)
    ensures
        r is Ok <==> json_text(*args) is Some,
        r matches Ok(b) ==> json_text(*args) == Some(b@),
        r is Err ==> r matches Err(ApiError::Transport(_)),
{
    match encode_document(args) {
        Ok(bytes) => Ok(bytes),
        Err(e) => Err(ApiError::Transport(error_message(&e))),
    }
}

/// The elements of the `result` of a fetch, which the service sends as a list of updates.
pub fn update_list(result: serde_json::Value) -> (r: Result<Vec<serde_json::Value>, ApiError>)
    ensures
        r is Ok <==> json_array(result) is Some,
        r matches Ok(items) ==> json_array(result) == Some(items@),
        r is Err ==> r matches Err(ApiError::Transport(_)),
{
    match array_elements(result) {
        Ok(items) => Ok(items),
        Err(e) => Err(ApiError::Transport(error_message(&e))),
    }
}

} // verus!
