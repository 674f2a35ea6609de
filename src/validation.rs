use vstd::prelude::*;
use vstd::string::*;

use crate::credential::{ApiKeyError, ApiKeyErrorKind};

verus! {

/// Header that carries the secret.
pub const API_KEY_HEADER: &'static str = "x-api-key";

/// Header that carries the protocol version.
pub const VERSION_HEADER: &'static str = "anthropic-version";

/// Protocol version sent with every validation request.
pub const API_VERSION: &'static str = "2023-06-01";

pub const CONTENT_TYPE_HEADER: &'static str = "content-type";

pub const JSON_CONTENT_TYPE: &'static str = "application/json";

/// Start of the probe body, up to the model identifier.
pub const PROBE_BODY_HEAD: &'static str = "{\"model\":";

/// Rest of the probe body: one short user turn and a small token cap.
pub const PROBE_BODY_TAIL: &'static str = ",\"messages\":[{\"role\":\"user\",\"content\":\"Hi\"}],\"max_tokens\":10}";

/// The JSON string literal that serde_json writes for a text.
pub uninterp spec fn json_string_of(s: Seq<char>) -> Seq<char>;

/// Relies on serde_json's `Value::String` and its `Display`: the compact JSON text of a string
/// value, that is the quoted and escaped literal. Writing into a `String` cannot fail.
#[verifier::external_body]
fn json_string_literal(s: &str) -> (r: String)
    ensures
        r@ == json_string_of(s@),
{
    serde_json::Value::String(s.to_string()).to_string()
}

/// The smallest useful completion request for `model`.
pub open spec fn probe_body(model: Seq<char>) -> Seq<char> {
    PROBE_BODY_HEAD@ + json_string_of(model) + PROBE_BODY_TAIL@
}

/// HTTP status of an accepted request.
pub const STATUS_OK: u16 = 200;

/// HTTP status of a request whose credential was rejected.
pub const STATUS_UNAUTHORIZED: u16 = 401;

/// The POST request that checks a secret against an endpoint.
pub struct ValidationRequest {
    pub url: String,
    pub headers: Vec<(String, String)>,
    pub body: String,
}

pub open spec fn header_view(h: (String, String)) -> (Seq<char>, Seq<char>) {
    (h.0@, h.1@)
}

/// The headers of a validation request carrying `api_key`, in the order they are sent.
pub open spec fn probe_headers(api_key: Seq<char>) -> Seq<(Seq<char>, Seq<char>)> {
    seq![
        (API_KEY_HEADER@, api_key),
        (VERSION_HEADER@, API_VERSION@),
        (CONTENT_TYPE_HEADER@, JSON_CONTENT_TYPE@),
    ]
}

/// Builds the request that checks `api_key` against `endpoint`, asking `model` for a trivial
/// completion.
pub fn validation_request(api_key: &str, endpoint: &str, model: &str) -> (r: ValidationRequest)
    ensures
        r.url@ == endpoint@,
        r.headers@.map_values(|h: (String, String)| header_view(h)) == probe_headers(api_key@),
        r.body@ == probe_body(model@),
{
    let quoted = json_string_literal(model);
    let body = String::from_str(PROBE_BODY_HEAD).concat(quoted.as_str()).concat(PROBE_BODY_TAIL);
    let mut headers: Vec<(String, String)> = Vec::new();
    headers.push((String::from_str(API_KEY_HEADER), String::from_str(api_key)));
    headers.push((String::from_str(VERSION_HEADER), String::from_str(API_VERSION)));
    headers.push((String::from_str(CONTENT_TYPE_HEADER), String::from_str(JSON_CONTENT_TYPE)));
    let r = ValidationRequest {
        url: String::from_str(endpoint),
        headers,
        body,
    };
    assert(r.headers@.map_values(|h: (String, String)| header_view(h)) =~= probe_headers(
        api_key@,
    ));
    r
}

/// Outcome of a validation for the status the endpoint answered with, or for a transport
/// failure (`None`).
pub open spec fn validation_spec(status: Option<u16>) -> Result<bool, ApiKeyErrorKind> {
    match status {
        None => Err(ApiKeyErrorKind::Network),
        Some(code) => if code == STATUS_OK {
            Ok(true)
        } else if code == STATUS_UNAUTHORIZED {
            Err(ApiKeyErrorKind::InvalidCredential)
        } else {
            Err(ApiKeyErrorKind::Api(code))
        },
    }
}

pub open spec fn response_status(response: Result<u16, String>) -> Option<u16> {
    match response {
        Ok(code) => Some(code),
        Err(_) => None,
    }
}

pub open spec fn validation_view(r: Result<bool, ApiKeyError>) -> Result<bool, ApiKeyErrorKind> {
    match r {
        Ok(b) => Ok(b),
        Err(e) => Err(e.kind),
    }
}

/// Interprets what the endpoint answered: its HTTP status, or the description of a transport
/// failure. Only 200 confirms the secret; there is no `Ok(false)`.
pub fn validation_result(response: Result<u16, String>) -> (r: Result<bool, ApiKeyError>)
    ensures
        validation_view(r) == validation_spec(response_status(response)),
        r is Ok ==> r->Ok_0,
{
    match response {
        Err(detail) => Err(
            ApiKeyError::new(
                ApiKeyErrorKind::Network,
                String::from_str("Failed to connect to API: ").concat(detail.as_str()),
            ),
        ),
        Ok(code) => if code == STATUS_OK {
            Ok(true)
        } else if code == STATUS_UNAUTHORIZED {
            Err(ApiKeyError::new(ApiKeyErrorKind::InvalidCredential, String::from_str("Invalid API key")))
        } else {
            let status = code.to_string();
            Err(
                ApiKeyError::new(
                    ApiKeyErrorKind::Api(code),
                    String::from_str("API validation failed with status: ").concat(
                        status.as_str(),
                    ),
                ),
            )
        },
    }
}

} // verus!
