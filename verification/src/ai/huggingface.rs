//! Hugging Face Inference API provider. Tier 2 (Freemium).

use vstd::prelude::*;
use vstd::string::*;
use super::json::{
    decode_failure, decode_failure_message, item_pointer, item_pointer_text, json_array_len_at, json_array_length,
    json_number_at, json_parses, json_str_at, json_string_at, json_u64_at, json_valid, len_or_zero, text_or,
};
use super::{reply_answer, CompletionRequest, CompletionResponse, Provider, Tier};
use crate::error::CntrlError;
use crate::text::{concat_str, opt_view};

verus! {

/// Hugging Face Inference API provider.
#[derive(Debug, Clone)]
pub struct HuggingFaceProvider {
    /// HF user token (held in memory only).
    api_token: String,
    /// Model identifier (e.g. `mistralai/Mistral-7B-Instruct-v0.2`).
    model: String,
}

/// Metadata about a Hugging Face model.
#[derive(Debug, Clone)]
pub struct HfModelInfo {
    /// Model identifier on HF Hub.
    pub id: String,
    /// Total download count.
    pub downloads: u64,
}

/// The inference endpoint of a model.
pub open spec fn hf_model_url(model: Seq<char>) -> Seq<char> {
    "https://api-inference.huggingface.co/models/"@ + model
}

/// `m` is the model entry made from a model-list item whose `id` and
/// `downloads` are as given: a missing identifier is empty and a missing
/// download count is 0.
pub open spec fn hf_model_from(id: Option<Seq<char>>, downloads: Option<u64>, m: HfModelInfo) -> bool {
    &&& m.id@ == text_or(id, Seq::<char>::empty())
    &&& m.downloads == (match downloads {
        Some(d) => d,
        None => 0u64,
    })
}

/// The generated text of an inference reply `body`: from the first element
/// when the body is a list, from the body itself otherwise.
pub open spec fn hf_reply_text(body: Seq<u8>) -> Option<Seq<char>> {
    if json_array_len_at(body, ""@) is Some {
        json_str_at(body, "/0/generated_text"@)
    } else {
        json_str_at(body, "/generated_text"@)
    }
}

impl HfModelInfo {
    /// A model entry built from the fields of a model-list item: a missing
    /// identifier is empty and a missing download count is 0.
    pub fn from_fields(id: Option<String>, downloads: Option<u64>) -> (r: HfModelInfo)
        ensures
            r.id@ == (match opt_view(id) {
                Some(i) => i,
                None => Seq::<char>::empty(),
            }),
            r.downloads == (match downloads {
                Some(d) => d,
                None => 0u64,
            }),
    {
        let id = match id {
            Some(i) => i,
            None => String::new(),
        };
        let downloads = match downloads {
            Some(d) => d,
            None => 0,
        };
        HfModelInfo { id, downloads }
    }
}

impl HuggingFaceProvider {
    /// Creates a new Hugging Face provider.
    pub fn new(api_token: String, model: String) -> (r: Self)
        ensures
            r.api_token() == api_token@,
            r.model() == model@,
    {
        HuggingFaceProvider { api_token, model }
    }

    /// The access token.
    pub closed spec fn api_token(&self) -> Seq<char> {
        self.api_token@
    }

    /// The model identifier.
    pub closed spec fn model(&self) -> Seq<char> {
        self.model@
    }

    /// The bearer token sent with each request.
    pub fn bearer_token(&self) -> (r: &str)
        ensures
            r@ == self.api_token(),
    {
        self.api_token.as_str()
    }

    /// The model identifier.
    pub fn model_name(&self) -> (r: &str)
        ensures
            r@ == self.model(),
    {
        self.model.as_str()
    }

    /// The inference endpoint of this provider's model.
    pub fn model_url(&self) -> (r: String)
        ensures
            r@ == hf_model_url(self.model()),
    {
        concat_str("https://api-inference.huggingface.co/models/", self.model.as_str())
    }

    /// The number of new tokens to ask for: the request's limit, 512 when it
    /// sets none.
    pub fn max_new_tokens(req: &CompletionRequest) -> (r: u32)
        ensures
            r == (match req.max_tokens {
                Some(n) => n,
                None => 512u32,
            }),
    {
        match req.max_tokens {
            Some(n) => n,
            None => 512,
        }
    }

    /// Whether an HTTP status shows the model reachable: any success, or 503
    /// (the model is still loading).
    pub fn reachable_status(code: u16) -> (r: bool)
        ensures
            r == ((200 <= code < 300) || code == 503),
    {
        (200 <= code && code < 300) || code == 503
    }

    /// The response in an inference reply `body`: the generated text (see
    /// `reply_text`), no token count, at the Freemium tier. A body that is
    /// not JSON gives the error `"HF JSON parse error: ..."`.
    pub fn response_from_body(body: &[u8], model: String) -> (r: Result<CompletionResponse, CntrlError>)
        ensures
            reply_answer("HF JSON parse error"@, body@, hf_reply_text(body@), None, model, Tier::Freemium, r),
    {
        if !json_parses(body) {
            return Err(decode_failure("HF JSON parse error"));
        }
        let first_item_text = json_string_at(body, "/0/generated_text");
        let own_text = json_string_at(body, "/generated_text");
        let is_list = json_array_length(body, "").is_some();
        let text = Self::reply_text(is_list, first_item_text, own_text);
        Ok(CompletionResponse::from_reply(text, None, model, Tier::Freemium))
    }

    /// The models in a model-list reply `body`: one entry per element of the
    /// list the body holds, in order, from its `id` and `downloads`; none
    /// when the body is no list. A body that is not JSON gives the error
    /// `"HF JSON error: ..."`.
    pub fn models_from_body(body: &[u8]) -> (r: Result<Vec<HfModelInfo>, CntrlError>)
        ensures
            json_valid(body@) <==> r is Ok,
            match r {
                Ok(models) => {
                    &&& models@.len() == len_or_zero(json_array_len_at(body@, ""@))
                    &&& forall|i: int|
                        0 <= i < models@.len() ==> hf_model_from(
                            json_str_at(body@, item_pointer(""@, i as nat, "id"@)),
                            json_u64_at(body@, item_pointer(""@, i as nat, "downloads"@)),
                            #[trigger] models@[i],
                        )
                },
                Err(e) => e matches CntrlError::Ai(m) && m@ == decode_failure_message("HF JSON error"@),
            },
    {
        if !json_parses(body) {
            return Err(decode_failure("HF JSON error"));
        }
        let n: usize = match json_array_length(body, "") {
            Some(n) => n,
            None => 0,
        };
        let mut models: Vec<HfModelInfo> = Vec::new();
        let mut i: usize = 0;
        while i < n
            invariant
                i <= n,
                n == len_or_zero(json_array_len_at(body@, ""@)),
                models@.len() == i,
                forall|j: int|
                    0 <= j < i ==> hf_model_from(
                        json_str_at(body@, item_pointer(""@, j as nat, "id"@)),
                        json_u64_at(body@, item_pointer(""@, j as nat, "downloads"@)),
                        #[trigger] models@[j],
                    ),
            decreases n - i,
        {
            let id_at = item_pointer_text("", i, "id");
            let downloads_at = item_pointer_text("", i, "downloads");
            let id = json_string_at(body, id_at.as_str());
            let downloads = json_number_at(body, downloads_at.as_str());
            models.push(HfModelInfo::from_fields(id, downloads));
            i = i + 1;
        }
        Ok(models)
    }

    /// The generated text of an inference reply. A reply that is a list
    /// carries it in its first element (`first_item_text`, `None` when the
    /// list is empty or its first element has none); any other reply carries
    /// it itself (`own_text`).
    pub fn reply_text(is_list: bool, first_item_text: Option<String>, own_text: Option<String>) -> (r: Option<String>)
        ensures
            r == (if is_list {
                first_item_text
            } else {
                own_text
            }),
    {
        if is_list {
            first_item_text
        } else {
            own_text
        }
    }

    /// The identifiers of a list of models, in order.
    pub fn model_ids(models: Vec<HfModelInfo>) -> (r: Vec<String>)
        ensures
            r@.map_values(|s: String| s@) == models@.map_values(|m: HfModelInfo| m.id@),
    {
        let mut r: Vec<String> = Vec::new();
        let n = models.len();
        let mut i: usize = 0;
        while i < n
            invariant
                i <= n,
                n == models@.len(),
                r@.map_values(|s: String| s@) == models@.take(i as int).map_values(|m: HfModelInfo| m.id@),
            decreases n - i,
        {
            let ghost before = r@;
            let id = models[i].id.clone();
            r.push(id);
            assert(r@.map_values(|s: String| s@) =~= before.map_values(|s: String| s@).push(models@[i as int].id@));
            assert(models@.take(i + 1).map_values(|m: HfModelInfo| m.id@) =~= models@.take(i as int).map_values(
                |m: HfModelInfo| m.id@,
            ).push(models@[i as int].id@));
            i = i + 1;
        }
        assert(models@.take(n as int) =~= models@);
        r
    }
}

impl Provider for HuggingFaceProvider {
    /// Always "Hugging Face".
    open spec fn provider_name(&self) -> Seq<char> {
        "Hugging Face"@
    }

    /// Always Freemium.
    open spec fn provider_tier(&self) -> Tier {
        Tier::Freemium
    }

    fn name(&self) -> (r: &str) {
        "Hugging Face"
    }

    fn tier(&self) -> (r: Tier) {
        Tier::Freemium
    }
}

} // verus!
