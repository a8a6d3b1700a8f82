//! Groq provider: fast inference through Groq's OpenAI-compatible API.
//! Tier 2 (Freemium).

use vstd::prelude::*;
use super::{Provider, Tier};

verus! {

/// Groq provider using the OpenAI-compatible endpoint.
#[derive(Debug, Clone)]
pub struct GroqProvider {
    /// Groq API key (held in memory only).
    api_key: String,
    /// Model identifier (e.g. `llama3-8b-8192`).
    model: String,
}

impl GroqProvider {
    /// Creates a new Groq provider.
    pub fn new(api_key: String, model: String) -> (r: Self)
        ensures
            r.api_key() == api_key@,
            r.model() == model@,
    {
        GroqProvider { api_key, model }
    }

    /// The API key.
    pub closed spec fn api_key(&self) -> Seq<char> {
        self.api_key@
    }

    /// The model identifier.
    pub closed spec fn model(&self) -> Seq<char> {
        self.model@
    }

    /// The bearer token sent with each request.
    pub fn bearer_token(&self) -> (r: &str)
        ensures
            r@ == self.api_key(),
    {
        self.api_key.as_str()
    }

    /// The model identifier.
    pub fn model_name(&self) -> (r: &str)
        ensures
            r@ == self.model(),
    {
        self.model.as_str()
    }
}

impl Provider for GroqProvider {
    /// Always "Groq".
    open spec fn provider_name(&self) -> Seq<char> {
        "Groq"@
    }

    /// Always Freemium.
    open spec fn provider_tier(&self) -> Tier {
        Tier::Freemium
    }

    fn name(&self) -> (r: &str) {
        "Groq"
    }

    fn tier(&self) -> (r: Tier) {
        Tier::Freemium
    }
}

} // verus!
