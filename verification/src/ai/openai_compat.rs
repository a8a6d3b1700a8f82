//! Generic provider for any endpoint that follows the OpenAI chat
//! completions API.

use vstd::prelude::*;
use super::{Provider, Tier};
use crate::text::{replace_all, replace_str};

verus! {

/// A provider that speaks the OpenAI `/v1/chat/completions` protocol.
#[derive(Debug, Clone)]
pub struct OpenAiCompatProvider {
    /// Human-readable name shown in the UI.
    display_name: String,
    /// Full endpoint URL (e.g. `https://openrouter.ai/api/v1/chat/completions`).
    endpoint: String,
    /// Bearer token for authentication (held in memory, never persisted).
    api_key: String,
    /// Model identifier sent in the request body.
    model: String,
    /// Tier this provider belongs to.
    provider_tier: Tier,
}

/// The model-list endpoint that goes with a chat-completions endpoint.
pub open spec fn compat_models_url(endpoint: Seq<char>) -> Seq<char> {
    replace_all(endpoint, "/chat/completions"@, "/models"@)
}

impl OpenAiCompatProvider {
    /// Creates a new OpenAI-compatible provider.
    pub fn new(display_name: String, endpoint: String, api_key: String, model: String, tier: Tier) -> (r: Self)
        ensures
            r.display_name() == display_name@,
            r.endpoint() == endpoint@,
            r.api_key() == api_key@,
            r.model() == model@,
            r.tier_spec() == tier,
    {
        OpenAiCompatProvider { display_name, endpoint, api_key, model, provider_tier: tier }
    }

    /// The name shown in the UI.
    pub closed spec fn display_name(&self) -> Seq<char> {
        self.display_name@
    }

    /// The chat-completions endpoint.
    pub closed spec fn endpoint(&self) -> Seq<char> {
        self.endpoint@
    }

    /// The API key.
    pub closed spec fn api_key(&self) -> Seq<char> {
        self.api_key@
    }

    /// The model identifier.
    pub closed spec fn model(&self) -> Seq<char> {
        self.model@
    }

    /// The tier this provider serves.
    pub closed spec fn tier_spec(&self) -> Tier {
        self.provider_tier
    }

    /// The chat-completions endpoint.
    pub fn endpoint_url(&self) -> (r: &str)
        ensures
            r@ == self.endpoint(),
    {
        self.endpoint.as_str()
    }

    /// The bearer token sent with each request.
    pub fn bearer_token(&self) -> (r: &str)
        ensures
            r@ == self.api_key(),
    {
        self.api_key.as_str()
    }

    /// The model identifier.
    pub fn model_name(&self) -> (r: &str)
        ensures
            r@ == self.model(),
    {
        self.model.as_str()
    }

    /// The model-list endpoint used as a health check: the endpoint with
    /// `/chat/completions` replaced by `/models`.
    pub fn models_url(&self) -> (r: String)
        ensures
            r@ == compat_models_url(self.endpoint()),
    {
        proof {
            reveal_strlit("/chat/completions");
        }
        replace_str(self.endpoint.as_str(), "/chat/completions", "/models")
    }
}

impl Provider for OpenAiCompatProvider {
    /// The display name it was created with.
    open spec fn provider_name(&self) -> Seq<char> {
        self.display_name()
    }

    /// The tier it was created for.
    open spec fn provider_tier(&self) -> Tier {
        self.tier_spec()
    }

    fn name(&self) -> (r: &str) {
        self.display_name.as_str()
    }

    fn tier(&self) -> (r: Tier) {
        self.provider_tier
    }
}

} // verus!
