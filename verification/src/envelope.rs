//! The response envelope `{code, result, data, message?}` and the
//! unwrapping every endpoint operation is built on: `data` wins when
//! present, then a present `message` (with the required `code`) is an API
//! rejection, and anything else is an unreachable or malformed response.

use vstd::prelude::*;
use vstd::string::StringExecFns;
use crate::errors::NaApiError;
use crate::errors::transport_failure_prefix;
use crate::numtext::dec_digits;
use crate::numtext::u64_to_decimal;

verus! {

#[verifier::external_type_specification]
#[verifier::external_body]
pub struct ExValue(serde_json::Value);

/// Whether the body text parses as a JSON value.
pub uninterp spec fn json_parses(body: Seq<char>) -> bool;

/// The parser's error text for a body that does not parse.
pub uninterp spec fn json_parse_err(body: Seq<char>) -> Seq<char>;

/// Whether the parsed body carries a `data` field.
pub uninterp spec fn json_has_data(body: Seq<char>) -> bool;

/// The parsed body's `message` field, when it is a string.
pub uninterp spec fn json_message(body: Seq<char>) -> Option<Seq<char>>;

/// The parsed body's `code` field, when it is an unsigned integer.
pub uninterp spec fn json_code(body: Seq<char>) -> Option<u64>;

/// What the unwrapping reads from a response: the `data` field as it came
/// (its shape is the caller's deserialization step to validate), the
/// `message` field when it is a string, and the `code` field when it is an
/// unsigned integer.
pub struct Envelope {
    pub data: Option<serde_json::Value>,
    pub message: Option<String>,
    pub code: Option<u64>,
}

/// Relies on serde_json::from_str for the parse (success and error text are
/// functions of the body text alone), and on serde_json's Value::get with a
/// string key, Value::as_str, Value::as_u64 and Value::clone for the three
/// envelope fields (each a function of the body text alone).
#[verifier::external_body]
fn read_body(body: &str) -> (r: Result<Envelope, String>)
    ensures
        r is Ok <==> json_parses(body@),
        r matches Err(e) ==> e@ == json_parse_err(body@),
        r matches Ok(env) ==> (env.data is Some <==> json_has_data(body@)),
        r matches Ok(env) ==> (match (env.message, json_message(body@)) {
            (Some(m), Some(j)) => m@ == j,
            (None, None) => true,
            _ => false,
        }),
        r matches Ok(env) ==> env.code == json_code(body@),
{
    let v: serde_json::Value = match serde_json::from_str(body) {
        Ok(v) => v,
        Err(e) => return Err(e.to_string()),
    };
    let message = match v.get("message") {
        Some(m) => m.as_str().map(str::to_owned),
        None => None,
    };
    let code = match v.get("code") {
        Some(c) => c.as_u64(),
        None => None,
    };
    Ok(Envelope { data: v.get("data").cloned(), message, code })
}

/// The message of an API rejection: `"{code}: {message}"`.
pub open spec fn rejection_text(code: u64, message: Seq<char>) -> Seq<char> {
    dec_digits(code as nat) + ": "@ + message
}

/// The message of the generic error for an unreachable or malformed
/// response, naming the requested path.
pub open spec fn unreachable_text(path: Seq<char>) -> Seq<char> {
    "Could not reach: "@ + path
}

/// The unwrap precedence: a present `data` is returned as-is, whatever else
/// the envelope carries; failing that, a present `message` together with
/// the `code` it requires is an API rejection; anything else (no `message`,
/// or a `message` without its `code`, which is outside the envelope shape)
/// is the generic unreachable error naming `path`.
pub open spec fn unwrap_outcome(
    env: Envelope,
    path: Seq<char>,
    r: Result<serde_json::Value, NaApiError>,
) -> bool {
    match env.data {
        Some(d) => r matches Ok(v) && v == d,
        None => match (env.message, env.code) {
            (Some(m), Some(c)) => r matches Err(e) && e matches NaApiError::APIKeyInvalid(t)
                && t@ == rejection_text(c, m@),
            _ => r matches Err(e) && e matches NaApiError::UnknownError(t) && t@
                == unreachable_text(path),
        },
    }
}

/// Applies the unwrap precedence to an envelope read from a response to a
/// request on `path`.
pub fn unwrap_envelope(env: Envelope, path: &str) -> (r: Result<serde_json::Value, NaApiError>)
    ensures
        unwrap_outcome(env, path@, r),
{
    let Envelope { data, message, code } = env;
    match data {
        Some(d) => Ok(d),
        None => match (message, code) {
            (Some(m), Some(c)) => {
                let mut t = u64_to_decimal(c);
                t.append(": ");
                t.append(m.as_str());
                proof {
                    assert(t@ =~= rejection_text(c, m@));
                }
                Err(NaApiError::APIKeyInvalid(t))
            },
            _ => {
                let mut t = String::new();
                t.append("Could not reach: ");
                t.append(path);
                proof {
                    assert(t@ =~= unreachable_text(path@));
                }
                Err(NaApiError::UnknownError(t))
            },
        },
    }
}

/// Law: `data` wins — when the envelope carries `data`, the unwrapping
/// returns it, whatever `message` or `code` also came along.
pub proof fn lemma_data_takes_precedence(
    env: Envelope,
    path: Seq<char>,
    r: Result<serde_json::Value, NaApiError>,
)
    requires
        env.data is Some,
        unwrap_outcome(env, path, r),
    ensures
        r matches Ok(v) && v == env.data->0,
{
}

/// Law: the unwrapping is a function of the envelope and the path alone —
/// unwrapping the same envelope twice yields the same value or the same
/// error, with the same message.
pub proof fn lemma_unwrap_deterministic(
    env: Envelope,
    path: Seq<char>,
    r1: Result<serde_json::Value, NaApiError>,
    r2: Result<serde_json::Value, NaApiError>,
)
    requires
        unwrap_outcome(env, path, r1),
        unwrap_outcome(env, path, r2),
    ensures
        r1 is Ok <==> r2 is Ok,
        r1 matches Ok(v1) ==> r2 matches Ok(v2) && v1 == v2,
        r1 matches Err(e1) ==> r2 matches Err(e2) && e1.spec_text() == e2.spec_text(),
{
}

/// What interpreting a body returned by a request on `path` must yield:
/// a body that does not parse is a transport failure carrying the parser's
/// text; a parsed body with `data` succeeds; a parsed body without `data`
/// is the rejection `"{code}: {message}"` when it carries a string
/// `message` and its integer `code`, and the generic unreachable error
/// naming `path` otherwise.
pub open spec fn body_outcome(
    body: Seq<char>,
    path: Seq<char>,
    r: Result<serde_json::Value, NaApiError>,
) -> bool {
    if !json_parses(body) {
        r matches Err(e) && e matches NaApiError::UnknownError(t) && t@
            == transport_failure_prefix() + json_parse_err(body)
    } else if json_has_data(body) {
        r is Ok
    } else {
        match (json_message(body), json_code(body)) {
            (Some(m), Some(c)) => r matches Err(e) && e matches NaApiError::APIKeyInvalid(t)
                && t@ == rejection_text(c, m),
            _ => r matches Err(e) && e matches NaApiError::UnknownError(t) && t@
                == unreachable_text(path),
        }
    }
}

/// The full body-side half of a fetch: parses the body returned by a
/// request on `path`, reads the envelope and applies the unwrap
/// precedence.  The transport half — the HTTP GET on the URL from
/// `NaClient::request_url` — is the caller's; this function interprets
/// whatever body came back.
pub fn data_from_body(body: &str, path: &str) -> (r: Result<serde_json::Value, NaApiError>)
    ensures
        body_outcome(body@, path@, r),
{
    match read_body(body) {
        Ok(env) => {
            let ghost genv = env;
            let r = unwrap_envelope(env, path);
            proof {
                assert(unwrap_outcome(genv, path@, r));
            }
            r
        },
        Err(detail) => Err(NaApiError::transport_failure(detail.as_str())),
    }
}

/// Law: interpreting a body is a function of the body text and the path
/// alone, as far as the error side reaches — two results of the same call
/// agree on success, and failing ones carry the same error with the same
/// message.  (The successful `data` value itself is an opaque JSON value;
/// that two parses of one body yield equal values is exercised by tests,
/// not stated here.)
pub proof fn lemma_body_outcome_deterministic(
    body: Seq<char>,
    path: Seq<char>,
    r1: Result<serde_json::Value, NaApiError>,
    r2: Result<serde_json::Value, NaApiError>,
)
    requires
        body_outcome(body, path, r1),
        body_outcome(body, path, r2),
    ensures
        r1 is Ok <==> r2 is Ok,
        r1 matches Err(e1) ==> r2 matches Err(e2) && e1.spec_text() == e2.spec_text(),
{
}

} // verus!
