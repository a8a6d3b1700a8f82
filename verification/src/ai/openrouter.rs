//! OpenRouter provider: hundreds of models through the OpenRouter API.
//! Tier 2 (Freemium) for free models, Tier 3 (Premium) for paid ones.

use vstd::prelude::*;
use vstd::string::*;
use super::json::{
    decode_failure, decode_failure_message, item_pointer, item_pointer_text, json_array_len_at, json_array_length,
    json_number_at, json_parses, json_str_at, json_string_at, json_u64_at, json_valid, len_or_zero, text_or,
};
use super::{Provider, Tier};
use crate::error::CntrlError;
use crate::text::{opt_view, same_text};

verus! {

/// OpenRouter provider wrapping the OpenAI-compatible endpoint.
#[derive(Debug, Clone)]
pub struct OpenRouterProvider {
    /// Bearer token (held in memory only).
    api_key: String,
    /// Selected model ID (e.g. `meta-llama/llama-3-8b-instruct:free`).
    model: String,
    /// Which tier: Freemium for free models, Premium for paid.
    provider_tier: Tier,
}

/// Metadata about an OpenRouter model.
#[derive(Debug, Clone)]
pub struct OpenRouterModel {
    /// Model identifier.
    pub id: String,
    /// Human-readable name.
    pub name: String,
    /// Maximum context window size.
    pub context_length: u32,
    /// Price per prompt token as a string.
    pub prompt_price: String,
    /// Whether this model is free to use.
    pub is_free: bool,
}

/// The identifiers of the free models among `models`, in order.
pub open spec fn free_ids(models: Seq<OpenRouterModel>) -> Seq<Seq<char>>
    decreases models.len(),
{
    if models.len() == 0 {
        seq![]
    } else {
        let rest = free_ids(models.drop_last());
        if models.last().is_free {
            rest.push(models.last().id@)
        } else {
            rest
        }
    }
}

/// `m` is the model entry made from a model-list item whose fields are as
/// given: a missing identifier is empty, a missing name is the identifier, a
/// missing context length is 0 (narrowed to 32 bits), a missing prompt price
/// is `"0"`, and the model is free exactly when its prompt price is `"0"`.
pub open spec fn openrouter_model_from(
    id: Option<Seq<char>>,
    name: Option<Seq<char>>,
    context_length: Option<u64>,
    prompt_price: Option<Seq<char>>,
    m: OpenRouterModel,
) -> bool {
    &&& m.id@ == text_or(id, Seq::<char>::empty())
    &&& m.name@ == text_or(name, m.id@)
    &&& m.context_length == (match context_length {
        Some(n) => n as u32,
        None => 0u32,
    })
    &&& m.prompt_price@ == text_or(prompt_price, "0"@)
    &&& m.is_free == (m.prompt_price@ == "0"@)
}

/// The model-list item fields of element `i` of the `data` list of `body`.
pub open spec fn openrouter_item_fits(body: Seq<u8>, i: nat, m: OpenRouterModel) -> bool {
    openrouter_model_from(
        json_str_at(body, item_pointer("/data"@, i, "id"@)),
        json_str_at(body, item_pointer("/data"@, i, "name"@)),
        json_u64_at(body, item_pointer("/data"@, i, "context_length"@)),
        json_str_at(body, item_pointer("/data"@, i, "pricing/prompt"@)),
        m,
    )
}

impl OpenRouterModel {
    /// A model entry built from the fields of a model-list item: a missing
    /// identifier is empty, a missing name is the identifier, a missing
    /// context length is 0 (narrowed to 32 bits), and a missing prompt price
    /// is `"0"`; a model is free exactly when its prompt price is `"0"`.
    pub fn from_fields(
        id: Option<String>,
        name: Option<String>,
        context_length: Option<u64>,
        prompt_price: Option<String>,
    ) -> (r: OpenRouterModel)
        ensures
            r.id@ == (match opt_view(id) {
                Some(i) => i,
                None => Seq::<char>::empty(),
            }),
            r.name@ == (match opt_view(name) {
                Some(n) => n,
                None => r.id@,
            }),
            r.context_length == (match context_length {
                Some(n) => n as u32,
                None => 0u32,
            }),
            r.prompt_price@ == (match opt_view(prompt_price) {
                Some(p) => p,
                None => "0"@,
            }),
            r.is_free == (r.prompt_price@ == "0"@),
    {
        let id = match id {
            Some(i) => i,
            None => String::new(),
        };
        let name = match name {
            Some(n) => n,
            None => id.clone(),
        };
        let context_length = match context_length {
            Some(n) => n as u32,
            None => 0,
        };
        let prompt_price = match prompt_price {
            Some(p) => p,
            None => "0".to_owned(),
        };
        let is_free = same_text(prompt_price.as_str(), "0");
        OpenRouterModel { id, name, context_length, prompt_price, is_free }
    }
}

impl OpenRouterProvider {
    /// Creates a new OpenRouter provider.
    pub fn new(api_key: String, model: String, tier: Tier) -> (r: Self)
        ensures
            r.api_key() == api_key@,
            r.model() == model@,
            r.tier_spec() == tier,
    {
        OpenRouterProvider { api_key, model, provider_tier: tier }
    }

    /// The API key.
    pub closed spec fn api_key(&self) -> Seq<char> {
        self.api_key@
    }

    /// The model identifier.
    pub closed spec fn model(&self) -> Seq<char> {
        self.model@
    }

    /// The tier this provider was created for.
    pub closed spec fn tier_spec(&self) -> Tier {
        self.provider_tier
    }

    /// The bearer token sent with each request.
    pub fn bearer_token(&self) -> (r: &str)
        ensures
            r@ == self.api_key(),
    {
        self.api_key.as_str()
    }

    /// The model identifier.
    pub fn model_name(&self) -> (r: &str)
        ensures
            r@ == self.model(),
    {
        self.model.as_str()
    }

    /// The models in a model-list reply `body`: one entry per element of its
    /// `data` list, in order, from the element's `id`, `name`,
    /// `context_length` and `pricing.prompt`; none when there is no such
    /// list. A body that is not JSON gives the error
    /// `"OpenRouter JSON error: ..."`.
    pub fn models_from_body(body: &[u8]) -> (r: Result<Vec<OpenRouterModel>, CntrlError>)
        ensures
            json_valid(body@) <==> r is Ok,
            match r {
                Ok(models) => {
                    &&& models@.len() == len_or_zero(json_array_len_at(body@, "/data"@))
                    &&& forall|i: int|
                        0 <= i < models@.len() ==> openrouter_item_fits(body@, i as nat, #[trigger] models@[i])
                },
                Err(e) => e matches CntrlError::Ai(m) && m@ == decode_failure_message("OpenRouter JSON error"@),
            },
    {
        if !json_parses(body) {
            return Err(decode_failure("OpenRouter JSON error"));
        }
        let n: usize = match json_array_length(body, "/data") {
            Some(n) => n,
            None => 0,
        };
        let mut models: Vec<OpenRouterModel> = Vec::new();
        let mut i: usize = 0;
        while i < n
            invariant
                i <= n,
                n == len_or_zero(json_array_len_at(body@, "/data"@)),
                models@.len() == i,
                forall|j: int| 0 <= j < i ==> openrouter_item_fits(body@, j as nat, #[trigger] models@[j]),
            decreases n - i,
        {
            let id_at = item_pointer_text("/data", i, "id");
            let name_at = item_pointer_text("/data", i, "name");
            let length_at = item_pointer_text("/data", i, "context_length");
            let price_at = item_pointer_text("/data", i, "pricing/prompt");
            let id = json_string_at(body, id_at.as_str());
            let name = json_string_at(body, name_at.as_str());
            let context_length = json_number_at(body, length_at.as_str());
            let prompt_price = json_string_at(body, price_at.as_str());
            models.push(OpenRouterModel::from_fields(id, name, context_length, prompt_price));
            i = i + 1;
        }
        Ok(models)
    }

    /// The identifiers of the free models, in list order.
    pub fn free_model_ids(models: Vec<OpenRouterModel>) -> (r: Vec<String>)
        ensures
            r@.map_values(|s: String| s@) == free_ids(models@),
    {
        let mut r: Vec<String> = Vec::new();
        let n = models.len();
        let mut i: usize = 0;
        assert(models@.take(0) =~= Seq::<OpenRouterModel>::empty());
        assert(r@.map_values(|s: String| s@) =~= free_ids(models@.take(0)));
        while i < n
            invariant
                i <= n,
                n == models@.len(),
                r@.map_values(|s: String| s@) == free_ids(models@.take(i as int)),
            decreases n - i,
        {
            assert(models@.take(i + 1).drop_last() =~= models@.take(i as int));
            if models[i].is_free {
                r.push(models[i].id.clone());
            }
            assert(r@.map_values(|s: String| s@) =~= free_ids(models@.take(i + 1)));
            i = i + 1;
        }
        assert(models@.take(n as int) =~= models@);
        r
    }
}

impl Provider for OpenRouterProvider {
    /// Always "OpenRouter".
    open spec fn provider_name(&self) -> Seq<char> {
        "OpenRouter"@
    }

    /// The tier it was created for.
    open spec fn provider_tier(&self) -> Tier {
        self.tier_spec()
    }

    fn name(&self) -> (r: &str) {
        "OpenRouter"
    }

    fn tier(&self) -> (r: Tier) {
        self.provider_tier
    }
}

} // verus!
