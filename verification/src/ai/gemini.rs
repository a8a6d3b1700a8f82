//! Google Gemini provider, using the Gemini `generateContent` REST API.
//! Tier 2 (Freemium).

use vstd::prelude::*;
use vstd::string::*;
use super::{CompletionRequest, Provider, Tier};
use crate::text::{concat_str, opt_view};

verus! {

/// Google Gemini provider.
#[derive(Debug, Clone)]
pub struct GeminiProvider {
    /// Gemini API key (held in memory only).
    api_key: String,
    /// Model identifier (e.g. `gemini-2.0-flash`).
    model: String,
}

/// The generation endpoint for a model, authenticated by key.
pub open spec fn gemini_generate_url(model: Seq<char>, key: Seq<char>) -> Seq<char> {
    "https://generativelanguage.googleapis.com/v1beta/models/"@ + model + ":generateContent?key="@ + key
}

/// The model-list endpoint, authenticated by key.
pub open spec fn gemini_models_url(key: Seq<char>) -> Seq<char> {
    "https://generativelanguage.googleapis.com/v1beta/models?key="@ + key
}

/// The text parts of a request: the system message, the context preceded
/// by `Context:`, then the prompt; absent ones are left out.
pub open spec fn gemini_parts(req: CompletionRequest) -> Seq<Seq<char>> {
    let system = match opt_view(req.system) {
        Some(s) => seq![s],
        None => seq![],
    };
    let context = match opt_view(req.context) {
        Some(c) => seq!["Context:\n"@ + c],
        None => seq![],
    };
    system + context + seq![req.prompt@]
}

impl GeminiProvider {
    /// Creates a new Gemini provider.
    pub fn new(api_key: String, model: String) -> (r: Self)
        ensures
            r.api_key() == api_key@,
            r.model() == model@,
    {
        GeminiProvider { api_key, model }
    }

    /// The API key.
    pub closed spec fn api_key(&self) -> Seq<char> {
        self.api_key@
    }

    /// The model identifier.
    pub closed spec fn model(&self) -> Seq<char> {
        self.model@
    }

    /// The model identifier.
    pub fn model_name(&self) -> (r: &str)
        ensures
            r@ == self.model(),
    {
        self.model.as_str()
    }

    /// The generation endpoint of this provider's model.
    pub fn generate_url(&self) -> (r: String)
        ensures
            r@ == gemini_generate_url(self.model(), self.api_key()),
    {
        let a = concat_str("https://generativelanguage.googleapis.com/v1beta/models/", self.model.as_str());
        let b = concat_str(a.as_str(), ":generateContent?key=");
        concat_str(b.as_str(), self.api_key.as_str())
    }

    /// The model-list endpoint used as a health check.
    pub fn models_url(&self) -> (r: String)
        ensures
            r@ == gemini_models_url(self.api_key()),
    {
        concat_str("https://generativelanguage.googleapis.com/v1beta/models?key=", self.api_key.as_str())
    }

    /// The text parts of a request.
    pub fn request_parts(req: &CompletionRequest) -> (r: Vec<String>)
        ensures
            r@.map_values(|p: String| p@) == gemini_parts(*req),
    {
        let mut parts: Vec<String> = Vec::new();
        match &req.system {
            Some(s) => parts.push(s.clone()),
            None => {},
        }
        match &req.context {
            Some(c) => parts.push(concat_str("Context:\n", c.as_str())),
            None => {},
        }
        parts.push(req.prompt.clone());
        assert(parts@.map_values(|p: String| p@) =~= gemini_parts(*req));
        parts
    }
}

impl Provider for GeminiProvider {
    /// Always "Gemini".
    open spec fn provider_name(&self) -> Seq<char> {
        "Gemini"@
    }

    /// Always Freemium.
    open spec fn provider_tier(&self) -> Tier {
        Tier::Freemium
    }

    fn name(&self) -> (r: &str) {
        "Gemini"
    }

    fn tier(&self) -> (r: Tier) {
        Tier::Freemium
    }
}

} // verus!
