//! What the Gemini client decides: its key and base URL, the model of a
//! request, the URL it posts to, and the error for a reply that failed.
use crate::error::{Error, ErrorKind};
use vstd::prelude::*;

verus! {

/// The base URL used when `GEMINI_BASE_URL` is not set.
pub open spec fn default_base_url() -> Seq<char> {
    "https://generativelanguage.googleapis.com"@
}

/// The client's key and base URL, from the values of `GEMINI_API_KEY` and
/// `GEMINI_BASE_URL`. The key is required.
pub fn client_settings(api_key: Option<String>, base_url: Option<String>) -> (r: Result<
    (String, String),
    Error,
>)
    ensures
        api_key is None ==> (r matches Err(e) && e@ == (
            ErrorKind::Config,
            "GEMINI_API_KEY must be set"@,
        )),
        api_key matches Some(k) ==> (r matches Ok(p) && p.0@ == k@ && p.1@ == match base_url {
            Some(b) => b@,
            None => default_base_url(),
        }),
{
    match api_key {
        None => Err(Error::Config(crate::text::owned("GEMINI_API_KEY must be set"))),
        Some(k) => {
            let base = match base_url {
                Some(b) => b,
                None => crate::text::owned("https://generativelanguage.googleapis.com"),
            };
            Ok((k, base))
        },
    }
}

/// The model of a request: the override when there is one.
pub fn model_to_use<'a>(model_override: Option<&'a str>, model_name: &'a str) -> (m: &'a str)
    ensures
        m@ == match model_override {
            Some(o) => o@,
            None => model_name@,
        },
{
    match model_override {
        Some(o) => o,
        None => model_name,
    }
}

/// The URL of `generateContent` for a model.
pub fn request_url(base_url: &str, model: &str, api_key: &str) -> (u: String)
    ensures
        u@ == base_url@ + "/v1beta/models/"@ + model@ + ":generateContent?key="@ + api_key@,
{
    let mut u = crate::text::cat(base_url, "/v1beta/models/");
    u.append(model);
    u.append(":generateContent?key=");
    u.append(api_key);
    u
}

/// The error for a reply whose status is not a success, from the status as
/// displayed and the body.
pub fn api_error(status: &str, body: &str) -> (e: Error)
    ensures
        e@ == (ErrorKind::ApiError, "API Error: "@ + status@ + " - "@ + body@),
{
    let mut m = crate::text::cat("API Error: ", status);
    m.append(" - ");
    m.append(body);
    Error::ApiError(m)
}

} // verus!
