//! Ollama provider: a local Ollama instance, by default on localhost.
//! Tier 1 (Local); no API key.

use vstd::prelude::*;
use vstd::string::*;
use super::{Provider, Tier};
use crate::text::{concat_str, strip_trailing, strip_trailing_char};

verus! {

/// Ollama provider targeting `http://localhost:11434` by default.
#[derive(Debug, Clone)]
pub struct OllamaProvider {
    /// Base URL of the Ollama API (e.g. `http://localhost:11434`).
    pub base_url: String,
    /// Model name to use (e.g. `llama3`).
    pub model: String,
}

/// An Ollama endpoint: the base URL without trailing slashes, then `path`.
pub open spec fn ollama_url(base_url: Seq<char>, path: Seq<char>) -> Seq<char> {
    strip_trailing(base_url, '/') + path
}

impl OllamaProvider {
    /// Creates a new Ollama provider.
    pub fn new(base_url: String, model: String) -> (r: Self)
        ensures
            r.base_url == base_url,
            r.model == model,
    {
        OllamaProvider { base_url, model }
    }

    /// The text-generation endpoint.
    pub fn generate_url(&self) -> (r: String)
        ensures
            r@ == ollama_url(self.base_url@, "/api/generate"@),
    {
        let base = strip_trailing_char(self.base_url.as_str(), '/');
        concat_str(base.as_str(), "/api/generate")
    }

    /// The model-list endpoint used as a health check.
    pub fn tags_url(&self) -> (r: String)
        ensures
            r@ == ollama_url(self.base_url@, "/api/tags"@),
    {
        let base = strip_trailing_char(self.base_url.as_str(), '/');
        concat_str(base.as_str(), "/api/tags")
    }
}

impl Provider for OllamaProvider {
    /// Always "Ollama".
    open spec fn provider_name(&self) -> Seq<char> {
        "Ollama"@
    }

    /// Always Local.
    open spec fn provider_tier(&self) -> Tier {
        Tier::Local
    }

    fn name(&self) -> (r: &str) {
        "Ollama"
    }

    fn tier(&self) -> (r: Tier) {
        Tier::Local
    }
}

} // verus!
