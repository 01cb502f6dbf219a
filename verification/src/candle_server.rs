//! The Candle inference server's replies. Serving them over HTTP is the caller's part.
use vstd::prelude::*;

use crate::text::{concat2, string_views};

verus! {

/// The reply to an inference request.
#[derive(Debug, Clone)]
pub struct InferenceResponse {
    pub text: String,
    pub model: String,
}

/// The reply to a health check.
#[derive(Debug, Clone)]
pub struct HealthResponse {
    pub status: String,
    pub models_loaded: Vec<String>,
}

/// The server's shared state; it holds nothing yet.
#[derive(Debug, Clone, Copy, PartialEq, Eq, Structural)]
pub struct AppState {}

/// The models the server offers.
pub open spec fn offered_models() -> Seq<Seq<char>> {
    seq!["default"@]
}

/// The server is healthy, with the default model loaded.
pub fn health_response() -> (r: HealthResponse)
    ensures
        r.status@ == "healthy"@,
        string_views(r.models_loaded@) == offered_models(),
{
    let r = HealthResponse { status: String::from_str("healthy"), models_loaded: list_models() };
    r
}

/// The models offered: the default one.
pub fn list_models() -> (v: Vec<String>)
    ensures
        string_views(v@) == offered_models(),
{
    let mut v: Vec<String> = Vec::new();
    v.push(String::from_str("default"));
    assert(string_views(v@) =~= offered_models());
    v
}

/// The reply to a prompt: `Response to: ` and the prompt, from the default model.
pub fn inference_response(prompt: &str) -> (r: InferenceResponse)
    ensures
        r.text@ == "Response to: "@ + prompt@,
        r.model@ == "default"@,
{
    InferenceResponse { text: concat2("Response to: ", prompt), model: String::from_str("default") }
}

} // verus!
