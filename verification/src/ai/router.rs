//! Complexity-scoring router: scores each intent 0-10, maps the score to a
//! tier, and picks the provider that serves a tier, falling back down the
//! tier chain when the tier has no configured provider.

use vstd::prelude::*;
use vstd::string::*;
use super::gemini::GeminiProvider;
use super::groq::GroqProvider;
use super::huggingface::HuggingFaceProvider;
use super::ollama::OllamaProvider;
use super::openai_compat::OpenAiCompatProvider;
use super::openrouter::OpenRouterProvider;
use super::{tier_rank, Provider, ProviderInfo, Tier};
use crate::error::CntrlError;
use crate::intent::{contains_any, views};
use crate::privacy::{privacy_block_message, PrivacyGuard};
use crate::text::{ascii_lower, chars_of, contains, contains_str, is_ascii_text, lowercase, to_lowercase, word_bounds, words};

verus! {

// ── Configuration ──────────────────────────────────────────────────────

/// Per-provider configuration stored in memory. Keys are never persisted to disk.
#[derive(Debug, Clone)]
pub struct AiConfig {
    /// Active tier preference (user override).
    pub active_tier: Tier,
    /// Ollama base URL.
    pub ollama_url: String,
    /// Ollama model name.
    pub ollama_model: String,
    /// OpenRouter API key (in-memory only, shown as masked in UI).
    pub openrouter_key: Option<String>,
    /// OpenRouter selected model.
    pub openrouter_model: String,
    /// Gemini API key.
    pub gemini_key: Option<String>,
    /// Gemini model name.
    pub gemini_model: String,
    /// Groq API key.
    pub groq_key: Option<String>,
    /// Groq model name.
    pub groq_model: String,
    /// HuggingFace token.
    pub hf_token: Option<String>,
    /// HuggingFace model ID.
    pub hf_model: String,
    /// Custom Tier 3 endpoint URL.
    pub custom_endpoint: Option<String>,
    /// Custom Tier 3 API key.
    pub custom_key: Option<String>,
    /// Custom Tier 3 model.
    pub custom_model: String,
}

/// `c` is the default configuration: Freemium preferred, Ollama on
/// localhost with `llama3`, default models for every provider, and no key,
/// token or custom endpoint.
pub open spec fn is_default_config(c: AiConfig) -> bool {
    &&& c.active_tier == Tier::Freemium
    &&& c.ollama_url@ == "http://localhost:11434"@
    &&& c.ollama_model@ == "llama3"@
    &&& c.openrouter_key is None
    &&& c.openrouter_model@ == "meta-llama/llama-3-8b-instruct:free"@
    &&& c.gemini_key is None
    &&& c.gemini_model@ == "gemini-2.0-flash"@
    &&& c.groq_key is None
    &&& c.groq_model@ == "llama3-8b-8192"@
    &&& c.hf_token is None
    &&& c.hf_model@ == "mistralai/Mistral-7B-Instruct-v0.2"@
    &&& c.custom_endpoint is None
    &&& c.custom_key is None
    &&& c.custom_model@ == "gpt-4o"@
}

impl Default for AiConfig {
    fn default() -> (r: Self)
        ensures
            is_default_config(r),
    {
        AiConfig {
            active_tier: Tier::Freemium,
            ollama_url: "http://localhost:11434".to_owned(),
            ollama_model: "llama3".to_owned(),
            openrouter_key: None,
            openrouter_model: "meta-llama/llama-3-8b-instruct:free".to_owned(),
            gemini_key: None,
            gemini_model: "gemini-2.0-flash".to_owned(),
            groq_key: None,
            groq_model: "llama3-8b-8192".to_owned(),
            hf_token: None,
            hf_model: "mistralai/Mistral-7B-Instruct-v0.2".to_owned(),
            custom_endpoint: None,
            custom_key: None,
            custom_model: "gpt-4o".to_owned(),
        }
    }
}

/// Masked config returned to the frontend: whether each key is set, never
/// the key itself.
#[derive(Debug, Clone)]
pub struct AiConfigMasked {
    /// Active tier preference.
    pub active_tier: Tier,
    /// Ollama base URL.
    pub ollama_url: String,
    /// Ollama model name.
    pub ollama_model: String,
    /// Whether an OpenRouter key is configured.
    pub openrouter_key_set: bool,
    /// OpenRouter selected model.
    pub openrouter_model: String,
    /// Whether a Gemini key is configured.
    pub gemini_key_set: bool,
    /// Gemini model name.
    pub gemini_model: String,
    /// Whether a Groq key is configured.
    pub groq_key_set: bool,
    /// Groq model name.
    pub groq_model: String,
    /// Whether an HF token is configured.
    pub hf_token_set: bool,
    /// HF model ID.
    pub hf_model: String,
    /// Whether a custom endpoint is configured.
    pub custom_endpoint_set: bool,
    /// Custom model name.
    pub custom_model: String,
}

/// `m` is the masked form of `c`: the same tier, URLs and model names, and
/// for each secret only whether it is set.
pub open spec fn masks(c: AiConfig, m: AiConfigMasked) -> bool {
    &&& m.active_tier == c.active_tier
    &&& m.ollama_url@ == c.ollama_url@
    &&& m.ollama_model@ == c.ollama_model@
    &&& m.openrouter_key_set == c.openrouter_key is Some
    &&& m.openrouter_model@ == c.openrouter_model@
    &&& m.gemini_key_set == c.gemini_key is Some
    &&& m.gemini_model@ == c.gemini_model@
    &&& m.groq_key_set == c.groq_key is Some
    &&& m.groq_model@ == c.groq_model@
    &&& m.hf_token_set == c.hf_token is Some
    &&& m.hf_model@ == c.hf_model@
    &&& m.custom_endpoint_set == c.custom_endpoint is Some
    &&& m.custom_model@ == c.custom_model@
}

impl AiConfig {
    /// The masked form of this configuration, safe to send to the frontend.
    pub fn masked(&self) -> (r: AiConfigMasked)
        ensures
            masks(*self, r),
    {
        AiConfigMasked {
            active_tier: self.active_tier,
            ollama_url: self.ollama_url.clone(),
            ollama_model: self.ollama_model.clone(),
            openrouter_key_set: self.openrouter_key.is_some(),
            openrouter_model: self.openrouter_model.clone(),
            gemini_key_set: self.gemini_key.is_some(),
            gemini_model: self.gemini_model.clone(),
            groq_key_set: self.groq_key.is_some(),
            groq_model: self.groq_model.clone(),
            hf_token_set: self.hf_token.is_some(),
            hf_model: self.hf_model.clone(),
            custom_endpoint_set: self.custom_endpoint.is_some(),
            custom_model: self.custom_model.clone(),
        }
    }
}

// ── Complexity scoring ─────────────────────────────────────────────────

/// Keywords of simple, local or private commands (Tier 1).
pub open spec fn local_keywords() -> Seq<Seq<char>> {
    seq![
        "offline"@,
        "private"@,
        "local"@,
        "mute"@,
        "unmute"@,
        "close tab"@,
        "new tab"@,
        "screenshot"@,
        "reload"@,
        "go back"@,
        "go forward"@,
    ]
}

/// Keywords of complex reasoning (Tier 3).
pub open spec fn complex_keywords() -> Seq<Seq<char>> {
    seq![
        "analyze"@,
        "reason"@,
        "explain step by step"@,
        "code review"@,
        "refactor"@,
        "debug"@,
        "write complex"@,
        "compare and contrast"@,
        "evaluate"@,
        "synthesize"@,
        "critique"@,
    ]
}

/// How many keywords of `kws` occur in `text`.
pub open spec fn count_contained(text: Seq<char>, kws: Seq<Seq<char>>) -> nat
    decreases kws.len(),
{
    if kws.len() == 0 {
        0
    } else {
        count_contained(text, kws.drop_last()) + (if contains(text, kws.last()) {
            1nat
        } else {
            0nat
        })
    }
}

/// The complexity score, 0 to 10, of a lowercased intent: 2 when a local
/// keyword occurs; otherwise 4, plus 3 for each complex keyword that occurs,
/// plus 2 beyond 50 words or 1 beyond 20, plus 1 when both `if` and `then`
/// occur, capped at 10.
pub open spec fn complexity(lower: Seq<char>) -> u8 {
    if contains_any(lower, local_keywords()) {
        2
    } else {
        let keywords = 3 * count_contained(lower, complex_keywords());
        let n = words(lower).len();
        let length = if n > 50 {
            2nat
        } else if n > 20 {
            1nat
        } else {
            0nat
        };
        let conditional = if contains(lower, "if"@) && contains(lower, "then"@) {
            1nat
        } else {
            0nat
        };
        let total = 4 + keywords + length + conditional;
        if total > 10 {
            10
        } else {
            total as u8
        }
    }
}

/// The tier that serves a score: 0-3 Local, 4-7 Freemium, 8 and up Premium.
pub open spec fn tier_of_score(score: u8) -> Tier {
    if score <= 3 {
        Tier::Local
    } else if score <= 7 {
        Tier::Freemium
    } else {
        Tier::Premium
    }
}

fn local_keywords_exec() -> (r: Vec<&'static str>)
    ensures
        views(r@) == local_keywords(),
{
    let r = vec![
        "offline", "private", "local", "mute", "unmute", "close tab", "new tab", "screenshot",
        "reload", "go back", "go forward",
    ];
    assert(views(r@) =~= local_keywords());
    r
}

fn complex_keywords_exec() -> (r: Vec<&'static str>)
    ensures
        views(r@) == complex_keywords(),
{
    let r = vec![
        "analyze", "reason", "explain step by step", "code review", "refactor", "debug",
        "write complex", "compare and contrast", "evaluate", "synthesize", "critique",
    ];
    assert(views(r@) =~= complex_keywords());
    r
}

/// The complexity score of a lowercased intent.
pub fn score_lowered(lower: &str) -> (r: u8)
    ensures
        r == complexity(lower@),
        r <= 10,
{
    let lc = chars_of(lower);
    let mut score: u8 = 4;
    let local = local_keywords_exec();
    let nl = local.len();
    let mut i: usize = 0;
    while i < nl
        invariant
            i <= nl,
            nl == local@.len(),
            views(local@) == local_keywords(),
            lc@ == lower@,
            score == 4,
            forall|j: int| 0 <= j < i ==> !contains(lower@, #[trigger] local_keywords()[j]),
        decreases nl - i,
    {
        if contains_str(lc.as_slice(), local[i]) {
            assert(contains(lower@, local_keywords()[i as int]));
            return if score < 2 { score } else { 2 };
        }
        i = i + 1;
    }
    let complex = complex_keywords_exec();
    let nc = complex.len();
    let mut k: usize = 0;
    assert(complex_keywords().take(0) =~= Seq::<Seq<char>>::empty());
    while k < nc
        invariant
            k <= nc,
            nc == complex@.len(),
            views(complex@) == complex_keywords(),
            lc@ == lower@,
            score == 4 + 3 * count_contained(lower@, complex_keywords().take(k as int)),
            count_contained(lower@, complex_keywords().take(k as int)) <= k,
        decreases nc - k,
    {
        assert(complex_keywords().take(k + 1).drop_last() =~= complex_keywords().take(k as int));
        if contains_str(lc.as_slice(), complex[k]) {
            score = score.saturating_add(3);
        }
        k = k + 1;
    }
    assert(complex_keywords().take(nc as int) =~= complex_keywords());
    let word_count = word_bounds(lc.as_slice()).len();
    if word_count > 50 {
        score = score.saturating_add(2);
    } else if word_count > 20 {
        score = score.saturating_add(1);
    }
    if contains_str(lc.as_slice(), "if") && contains_str(lc.as_slice(), "then") {
        score = score.saturating_add(1);
    }
    if score > 10 { 10 } else { score }
}

// ── Provider selection ─────────────────────────────────────────────────

/// The provider chosen to serve a request, ready to be called.
#[derive(Debug, Clone)]
pub enum SelectedProvider {
    /// A local Ollama instance.
    Ollama(OllamaProvider),
    /// Google Gemini.
    Gemini(GeminiProvider),
    /// Groq.
    Groq(GroqProvider),
    /// Hugging Face Inference API.
    HuggingFace(HuggingFaceProvider),
    /// OpenRouter.
    OpenRouter(OpenRouterProvider),
    /// An OpenAI-compatible endpoint.
    OpenAiCompat(OpenAiCompatProvider),
}

/// Which provider serves a tier, and with which settings.
pub ghost enum ProviderPlan {
    /// The custom Tier 3 endpoint.
    Custom { endpoint: Seq<char>, key: Seq<char>, model: Seq<char> },
    /// OpenRouter, at the given tier.
    OpenRouter { key: Seq<char>, model: Seq<char>, tier: Tier },
    /// Gemini.
    Gemini { key: Seq<char>, model: Seq<char> },
    /// Groq.
    Groq { key: Seq<char>, model: Seq<char> },
    /// Hugging Face.
    HuggingFace { token: Seq<char>, model: Seq<char> },
    /// Ollama.
    Ollama { url: Seq<char>, model: Seq<char> },
}

/// The name shown for the custom Tier 3 provider.
pub open spec fn custom_provider_name() -> Seq<char> {
    "Custom (Tier 3)"@
}

/// The provider that serves tier `t` under configuration `c`. Premium goes
/// to the custom endpoint when it and its key are set, else to OpenRouter
/// when its key is set, else falls back to Freemium. Freemium goes to the
/// first of OpenRouter, Gemini, Groq and Hugging Face whose key is set, else
/// falls back to Local. Local is always Ollama.
pub open spec fn provider_plan(c: AiConfig, t: Tier) -> ProviderPlan
    decreases tier_rank(t),
{
    match t {
        Tier::Premium => {
            if c.custom_endpoint is Some && c.custom_key is Some {
                ProviderPlan::Custom {
                    endpoint: c.custom_endpoint->0@,
                    key: c.custom_key->0@,
                    model: c.custom_model@,
                }
            } else if c.openrouter_key is Some {
                ProviderPlan::OpenRouter {
                    key: c.openrouter_key->0@,
                    model: c.openrouter_model@,
                    tier: Tier::Premium,
                }
            } else {
                provider_plan(c, Tier::Freemium)
            }
        },
        Tier::Freemium => {
            if c.openrouter_key is Some {
                ProviderPlan::OpenRouter {
                    key: c.openrouter_key->0@,
                    model: c.openrouter_model@,
                    tier: Tier::Freemium,
                }
            } else if c.gemini_key is Some {
                ProviderPlan::Gemini { key: c.gemini_key->0@, model: c.gemini_model@ }
            } else if c.groq_key is Some {
                ProviderPlan::Groq { key: c.groq_key->0@, model: c.groq_model@ }
            } else if c.hf_token is Some {
                ProviderPlan::HuggingFace { token: c.hf_token->0@, model: c.hf_model@ }
            } else {
                provider_plan(c, Tier::Local)
            }
        },
        Tier::Local => ProviderPlan::Ollama { url: c.ollama_url@, model: c.ollama_model@ },
    }
}

/// The tier of the provider a plan selects.
pub open spec fn plan_tier(p: ProviderPlan) -> Tier {
    match p {
        ProviderPlan::Custom { .. } => Tier::Premium,
        ProviderPlan::OpenRouter { tier, .. } => tier,
        ProviderPlan::Gemini { .. } => Tier::Freemium,
        ProviderPlan::Groq { .. } => Tier::Freemium,
        ProviderPlan::HuggingFace { .. } => Tier::Freemium,
        ProviderPlan::Ollama { .. } => Tier::Local,
    }
}

/// The name of the provider a plan selects.
pub open spec fn plan_name(p: ProviderPlan) -> Seq<char> {
    match p {
        ProviderPlan::Custom { .. } => custom_provider_name(),
        ProviderPlan::OpenRouter { .. } => "OpenRouter"@,
        ProviderPlan::Gemini { .. } => "Gemini"@,
        ProviderPlan::Groq { .. } => "Groq"@,
        ProviderPlan::HuggingFace { .. } => "Hugging Face"@,
        ProviderPlan::Ollama { .. } => "Ollama"@,
    }
}

/// `p` is the provider that the plan describes, with the plan's settings.
pub open spec fn realizes(p: SelectedProvider, plan: ProviderPlan) -> bool {
    match plan {
        ProviderPlan::Custom { endpoint, key, model } => p matches SelectedProvider::OpenAiCompat(q) && {
            &&& q.display_name() == custom_provider_name()
            &&& q.endpoint() == endpoint
            &&& q.api_key() == key
            &&& q.model() == model
            &&& q.tier_spec() == Tier::Premium
        },
        ProviderPlan::OpenRouter { key, model, tier } => p matches SelectedProvider::OpenRouter(q) && {
            &&& q.api_key() == key
            &&& q.model() == model
            &&& q.tier_spec() == tier
        },
        ProviderPlan::Gemini { key, model } => p matches SelectedProvider::Gemini(q) && {
            &&& q.api_key() == key
            &&& q.model() == model
        },
        ProviderPlan::Groq { key, model } => p matches SelectedProvider::Groq(q) && {
            &&& q.api_key() == key
            &&& q.model() == model
        },
        ProviderPlan::HuggingFace { token, model } => p matches SelectedProvider::HuggingFace(q) && {
            &&& q.api_token() == token
            &&& q.model() == model
        },
        ProviderPlan::Ollama { url, model } => p matches SelectedProvider::Ollama(q) && {
            &&& q.base_url@ == url
            &&& q.model@ == model
        },
    }
}

/// The name of a selected provider.
pub open spec fn selected_name(p: SelectedProvider) -> Seq<char> {
    match p {
        SelectedProvider::Ollama(_) => "Ollama"@,
        SelectedProvider::Gemini(_) => "Gemini"@,
        SelectedProvider::Groq(_) => "Groq"@,
        SelectedProvider::HuggingFace(_) => "Hugging Face"@,
        SelectedProvider::OpenRouter(_) => "OpenRouter"@,
        SelectedProvider::OpenAiCompat(q) => q.display_name(),
    }
}

/// The tier of a selected provider.
pub open spec fn selected_tier(p: SelectedProvider) -> Tier {
    match p {
        SelectedProvider::Ollama(_) => Tier::Local,
        SelectedProvider::Gemini(_) => Tier::Freemium,
        SelectedProvider::Groq(_) => Tier::Freemium,
        SelectedProvider::HuggingFace(_) => Tier::Freemium,
        SelectedProvider::OpenRouter(q) => q.tier_spec(),
        SelectedProvider::OpenAiCompat(q) => q.tier_spec(),
    }
}

impl Provider for SelectedProvider {
    /// The name of the provider it holds.
    open spec fn provider_name(&self) -> Seq<char> {
        selected_name(*self)
    }

    /// The tier of the provider it holds.
    open spec fn provider_tier(&self) -> Tier {
        selected_tier(*self)
    }

    fn name(&self) -> (r: &str) {
        match self {
            SelectedProvider::Ollama(p) => p.name(),
            SelectedProvider::Gemini(p) => p.name(),
            SelectedProvider::Groq(p) => p.name(),
            SelectedProvider::HuggingFace(p) => p.name(),
            SelectedProvider::OpenRouter(p) => p.name(),
            SelectedProvider::OpenAiCompat(p) => p.name(),
        }
    }

    fn tier(&self) -> (r: Tier) {
        match self {
            SelectedProvider::Ollama(p) => p.tier(),
            SelectedProvider::Gemini(p) => p.tier(),
            SelectedProvider::Groq(p) => p.tier(),
            SelectedProvider::HuggingFace(p) => p.tier(),
            SelectedProvider::OpenRouter(p) => p.tier(),
            SelectedProvider::OpenAiCompat(p) => p.tier(),
        }
    }
}

/// The list of providers shown to the user: Ollama always (its health as
/// checked), then each remote provider whose key is set (the custom one when
/// both its endpoint and key are set), assumed reachable.
pub open spec fn provider_list(c: AiConfig, ollama_healthy: bool) -> Seq<(Seq<char>, Tier, bool)> {
    let ollama = seq![("Ollama"@, Tier::Local, ollama_healthy)];
    let openrouter = if c.openrouter_key is Some {
        seq![("OpenRouter"@, Tier::Freemium, true)]
    } else {
        seq![]
    };
    let gemini = if c.gemini_key is Some {
        seq![("Gemini"@, Tier::Freemium, true)]
    } else {
        seq![]
    };
    let groq = if c.groq_key is Some {
        seq![("Groq"@, Tier::Freemium, true)]
    } else {
        seq![]
    };
    let hf = if c.hf_token is Some {
        seq![("Hugging Face"@, Tier::Freemium, true)]
    } else {
        seq![]
    };
    let custom = if c.custom_endpoint is Some && c.custom_key is Some {
        seq![(custom_provider_name(), Tier::Premium, true)]
    } else {
        seq![]
    };
    ollama + openrouter + gemini + groq + hf + custom
}

/// The views of a list of provider summaries.
pub open spec fn infos_view(v: Seq<ProviderInfo>) -> Seq<(Seq<char>, Tier, bool)> {
    v.map_values(|p: ProviderInfo| (p.name@, p.tier, p.healthy))
}

fn info(name: &str, tier: Tier, healthy: bool) -> (r: ProviderInfo)
    ensures
        r.name@ == name@,
        r.tier == tier,
        r.healthy == healthy,
{
    ProviderInfo { name: name.to_owned(), tier, healthy }
}

/// The name a tier goes by in privacy checks and messages.
pub open spec fn tier_text(t: Tier) -> Seq<char> {
    match t {
        Tier::Local => "Local"@,
        Tier::Freemium => "Freemium"@,
        Tier::Premium => "Premium"@,
    }
}

/// The name a tier goes by in privacy checks and messages.
pub fn tier_name(t: Tier) -> (r: &'static str)
    ensures
        r@ == tier_text(t),
{
    match t {
        Tier::Local => "Local",
        Tier::Freemium => "Freemium",
        Tier::Premium => "Premium",
    }
}

proof fn lemma_tier_text_local(t: Tier)
    ensures
        (tier_text(t) == "Local"@) <==> t == Tier::Local,
{
    reveal_strlit("Local");
    reveal_strlit("Freemium");
    reveal_strlit("Premium");
    if t != Tier::Local {
        assert(tier_text(t)[0] != "Local"@[0]);
    }
}

proof fn lemma_realized_tier(p: SelectedProvider, plan: ProviderPlan)
    requires
        realizes(p, plan),
    ensures
        selected_tier(p) == plan_tier(plan),
{
}

/// The answer to a privacy-checked request for a provider at `tier` under
/// configuration `c` with privacy mode `private`: the provider chosen for
/// the tier, unless the mode is on and that provider is remote, in which
/// case the refusal that names the provider's tier.
pub open spec fn guarded_answer(c: AiConfig, private: bool, tier: Tier, r: Result<SelectedProvider, CntrlError>) -> bool {
    let plan = provider_plan(c, tier);
    if private && plan_tier(plan) != Tier::Local {
        r matches Err(e) && e matches CntrlError::Ai(m) && m@ == privacy_block_message(tier_text(plan_tier(plan)))
    } else {
        r matches Ok(p) && realizes(p, plan)
    }
}

// ── Router ─────────────────────────────────────────────────────────────

/// The AI router: holds the provider configuration and routes requests by
/// complexity.
#[derive(Debug, Clone)]
pub struct AiRouter {
    config: AiConfig,
}

impl AiRouter {
    /// The current configuration.
    pub closed spec fn current_config(&self) -> AiConfig {
        self.config
    }

    /// Creates a new router with the default configuration.
    pub fn new() -> (r: Self)
        ensures
            is_default_config(r.current_config()),
    {
        AiRouter { config: AiConfig::default() }
    }

    /// The current configuration.
    pub fn config(&self) -> (r: &AiConfig)
        ensures
            *r == self.current_config(),
    {
        &self.config
    }

    /// Replaces the whole configuration. Keys are held in memory only.
    pub fn update_config(&mut self, new_config: AiConfig)
        ensures
            final(self).current_config() == new_config,
    {
        self.config = new_config;
    }

    /// A masked copy of the configuration, safe to send to the frontend.
    pub fn get_config_masked(&self) -> (r: AiConfigMasked)
        ensures
            masks(self.current_config(), r),
    {
        self.config.masked()
    }

    /// Scores an intent's complexity from 0 to 10: 0-3 Tier 1 (Local), 4-7
    /// Tier 2 (Freemium), 8-10 Tier 3 (Premium).
    pub fn score_complexity(intent: &str) -> (r: u8)
        ensures
            r == complexity(lowercase(intent@)),
            r <= 10,
            is_ascii_text(intent@) ==> lowercase(intent@) == ascii_lower(intent@),
    {
        let lower = to_lowercase(intent);
        score_lowered(lower.as_str())
    }

    /// Maps a complexity score to a tier.
    pub fn tier_for_score(score: u8) -> (r: Tier)
        ensures
            r == tier_of_score(score),
    {
        if score <= 3 {
            Tier::Local
        } else if score <= 7 {
            Tier::Freemium
        } else {
            Tier::Premium
        }
    }

    /// Scores an intent and returns the recommended tier.
    pub fn score_intent(intent: &str) -> (r: Tier)
        ensures
            r == tier_of_score(complexity(lowercase(intent@))),
            is_ascii_text(intent@) ==> lowercase(intent@) == ascii_lower(intent@),
    {
        Self::tier_for_score(Self::score_complexity(intent))
    }

    /// Scores a batch of intents, each with its tier and score, in order.
    pub fn score_sample_intents(intents: Vec<String>) -> (r: Vec<(String, Tier, u8)>)
        ensures
            r@.len() == intents@.len(),
            forall|i: int|
                0 <= i < r@.len() ==> {
                    let (text, tier, score) = #[trigger] r@[i];
                    &&& text@ == intents@[i]@
                    &&& score == complexity(lowercase(intents@[i]@))
                    &&& tier == tier_of_score(score)
                },
    {
        let mut r: Vec<(String, Tier, u8)> = Vec::new();
        let n = intents.len();
        let mut i: usize = 0;
        while i < n
            invariant
                i <= n,
                n == intents@.len(),
                r@.len() == i,
                forall|j: int|
                    0 <= j < i ==> {
                        let (text, tier, score) = #[trigger] r@[j];
                        &&& text@ == intents@[j]@
                        &&& score == complexity(lowercase(intents@[j]@))
                        &&& tier == tier_of_score(score)
                    },
            decreases n - i,
        {
            let intent = intents[i].clone();
            let score = Self::score_complexity(intent.as_str());
            let tier = Self::tier_for_score(score);
            r.push((intent, tier, score));
            i = i + 1;
        }
        r
    }

    /// Builds the provider that serves `tier`, falling back down the tier
    /// chain when the tier has no configured provider. Local is always
    /// served, so there is always a provider.
    pub fn build_provider_for_tier(&self, tier: Tier) -> (r: Option<SelectedProvider>)
        ensures
            r matches Some(p) && realizes(p, provider_plan(self.current_config(), tier)),
        decreases tier_rank(tier),
    {
        let config = &self.config;
        match tier {
            Tier::Premium => {
                match (&config.custom_endpoint, &config.custom_key) {
                    (Some(endpoint), Some(key)) => {
                        return Some(
                            SelectedProvider::OpenAiCompat(
                                OpenAiCompatProvider::new(
                                    "Custom (Tier 3)".to_owned(),
                                    endpoint.clone(),
                                    key.clone(),
                                    config.custom_model.clone(),
                                    Tier::Premium,
                                ),
                            ),
                        );
                    },
                    _ => {},
                }
                match &config.openrouter_key {
                    Some(key) => {
                        return Some(
                            SelectedProvider::OpenRouter(
                                OpenRouterProvider::new(key.clone(), config.openrouter_model.clone(), Tier::Premium),
                            ),
                        );
                    },
                    None => {},
                }
                self.build_provider_for_tier(Tier::Freemium)
            },
            Tier::Freemium => {
                if let Some(key) = &config.openrouter_key {
                    return Some(
                        SelectedProvider::OpenRouter(
                            OpenRouterProvider::new(key.clone(), config.openrouter_model.clone(), Tier::Freemium),
                        ),
                    );
                }
                if let Some(key) = &config.gemini_key {
                    return Some(SelectedProvider::Gemini(GeminiProvider::new(key.clone(), config.gemini_model.clone())));
                }
                if let Some(key) = &config.groq_key {
                    return Some(SelectedProvider::Groq(GroqProvider::new(key.clone(), config.groq_model.clone())));
                }
                if let Some(token) = &config.hf_token {
                    return Some(
                        SelectedProvider::HuggingFace(HuggingFaceProvider::new(token.clone(), config.hf_model.clone())),
                    );
                }
                self.build_provider_for_tier(Tier::Local)
            },
            Tier::Local => Some(
                SelectedProvider::Ollama(OllamaProvider::new(config.ollama_url.clone(), config.ollama_model.clone())),
            ),
        }
    }

    /// The provider for `tier`, as `build_provider_for_tier` chooses it, if
    /// the privacy guard allows a call at that provider's tier: while privacy
    /// mode is on only a local provider is handed out, and a remote one is
    /// refused with the guard's error.
    pub fn guarded_provider_for_tier(&self, guard: &PrivacyGuard, tier: Tier) -> (r: Result<SelectedProvider, CntrlError>)
        ensures
            guarded_answer(self.current_config(), guard.mode(), tier, r),
            guard.mode() ==> (r matches Ok(p) ==> selected_tier(p) == Tier::Local),
    {
        let p = self.build_provider_for_tier(tier).unwrap();
        let t = p.tier();
        proof {
            lemma_realized_tier(p, provider_plan(self.current_config(), tier));
            lemma_tier_text_local(t);
        }
        match guard.check_tier(tier_name(t)) {
            Ok(()) => Ok(p),
            Err(e) => Err(e),
        }
    }

    /// The providers to show the user, given whether the local Ollama
    /// instance answered its health check.
    pub fn get_available_providers(&self, ollama_healthy: bool) -> (r: Vec<ProviderInfo>)
        ensures
            infos_view(r@) == provider_list(self.current_config(), ollama_healthy),
    {
        let config = &self.config;
        let mut providers: Vec<ProviderInfo> = Vec::new();
        providers.push(info("Ollama", Tier::Local, ollama_healthy));
        if config.openrouter_key.is_some() {
            providers.push(info("OpenRouter", Tier::Freemium, true));
        }
        if config.gemini_key.is_some() {
            providers.push(info("Gemini", Tier::Freemium, true));
        }
        if config.groq_key.is_some() {
            providers.push(info("Groq", Tier::Freemium, true));
        }
        if config.hf_token.is_some() {
            providers.push(info("Hugging Face", Tier::Freemium, true));
        }
        if config.custom_endpoint.is_some() && config.custom_key.is_some() {
            providers.push(info("Custom (Tier 3)", Tier::Premium, true));
        }
        assert(infos_view(providers@) =~= provider_list(self.current_config(), ollama_healthy));
        providers
    }
}

// ── Routing laws ───────────────────────────────────────────────────────

/// Falling back only ever goes down the tier chain: the provider chosen for
/// a tier never belongs to a higher tier.
pub proof fn lemma_fallback_never_raises_tier(c: AiConfig, t: Tier)
    ensures
        tier_rank(plan_tier(provider_plan(c, t))) <= tier_rank(t),
    decreases tier_rank(t),
{
    match t {
        Tier::Premium => lemma_fallback_never_raises_tier(c, Tier::Freemium),
        Tier::Freemium => lemma_fallback_never_raises_tier(c, Tier::Local),
        Tier::Local => {},
    }
}

/// With no key, token or custom endpoint configured, every tier is served
/// by the local Ollama instance.
pub proof fn lemma_no_keys_means_ollama(c: AiConfig, t: Tier)
    requires
        c.openrouter_key is None,
        c.gemini_key is None,
        c.groq_key is None,
        c.hf_token is None,
        c.custom_key is None,
    ensures
        provider_plan(c, t) == (ProviderPlan::Ollama { url: c.ollama_url@, model: c.ollama_model@ }),
{
    reveal_with_fuel(provider_plan, 3);
}

/// An intent that holds a local keyword is routed to the local tier.
pub proof fn lemma_local_keyword_routes_local(lower: Seq<char>)
    requires
        contains_any(lower, local_keywords()),
    ensures
        tier_of_score(complexity(lower)) == Tier::Local,
{
}

/// Complexity scores stay within 0 to 10.
pub proof fn lemma_complexity_bounded(lower: Seq<char>)
    ensures
        complexity(lower) <= 10,
{
}

/// An intent without local keywords that holds two or more complex-reasoning
/// keywords is routed to the premium tier.
pub proof fn lemma_complex_keywords_route_premium(lower: Seq<char>)
    requires
        !contains_any(lower, local_keywords()),
        count_contained(lower, complex_keywords()) >= 2,
    ensures
        tier_of_score(complexity(lower)) == Tier::Premium,
{
}

/// A command that holds any of the local keywords "offline", "private",
/// "local", "mute", "unmute", "close tab", "new tab", "screenshot", "reload",
/// "go back" or "go forward" scores 2 and is routed to the local tier.
pub proof fn lemma_local_keywords_score_two(lower: Seq<char>, kw: Seq<char>)
    requires
        contains(lower, kw),
        kw == "offline"@ || kw == "private"@ || kw == "local"@ || kw == "mute"@ || kw == "unmute"@
            || kw == "close tab"@ || kw == "new tab"@ || kw == "screenshot"@ || kw == "reload"@
            || kw == "go back"@ || kw == "go forward"@,
    ensures
        complexity(lower) == 2,
        tier_of_score(complexity(lower)) == Tier::Local,
{
    let kws = local_keywords();
    let k: int = if kw == "offline"@ {
        0
    } else if kw == "private"@ {
        1
    } else if kw == "local"@ {
        2
    } else if kw == "mute"@ {
        3
    } else if kw == "unmute"@ {
        4
    } else if kw == "close tab"@ {
        5
    } else if kw == "new tab"@ {
        6
    } else if kw == "screenshot"@ {
        7
    } else if kw == "reload"@ {
        8
    } else if kw == "go back"@ {
        9
    } else {
        10
    };
    assert(kws[k] == kw);
    assert(contains(lower, kws[k]));
    assert(contains_any(lower, kws));
}

proof fn lemma_count_one(text: Seq<char>, kws: Seq<Seq<char>>, i: int)
    requires
        0 <= i < kws.len(),
        contains(text, kws[i]),
    ensures
        count_contained(text, kws) >= 1,
    decreases kws.len(),
{
    if i < kws.len() - 1 {
        assert(kws.drop_last()[i] == kws[i]);
        lemma_count_one(text, kws.drop_last(), i);
    }
}

proof fn lemma_count_two(text: Seq<char>, kws: Seq<Seq<char>>, i: int, j: int)
    requires
        0 <= i < j < kws.len(),
        contains(text, kws[i]),
        contains(text, kws[j]),
    ensures
        count_contained(text, kws) >= 2,
    decreases kws.len(),
{
    assert(kws.drop_last()[i] == kws[i]);
    if j == kws.len() - 1 {
        lemma_count_one(text, kws.drop_last(), i);
    } else {
        assert(kws.drop_last()[j] == kws[j]);
        lemma_count_two(text, kws.drop_last(), i, j);
    }
}

proof fn lemma_complex_keyword_index(kw: Seq<char>) -> (k: int)
    requires
        kw == "analyze"@ || kw == "reason"@ || kw == "explain step by step"@ || kw == "code review"@
            || kw == "refactor"@ || kw == "debug"@ || kw == "write complex"@ || kw == "compare and contrast"@
            || kw == "evaluate"@ || kw == "synthesize"@ || kw == "critique"@,
    ensures
        0 <= k < complex_keywords().len(),
        complex_keywords()[k] == kw,
{
    let k: int = if kw == "analyze"@ {
        0
    } else if kw == "reason"@ {
        1
    } else if kw == "explain step by step"@ {
        2
    } else if kw == "code review"@ {
        3
    } else if kw == "refactor"@ {
        4
    } else if kw == "debug"@ {
        5
    } else if kw == "write complex"@ {
        6
    } else if kw == "compare and contrast"@ {
        7
    } else if kw == "evaluate"@ {
        8
    } else if kw == "synthesize"@ {
        9
    } else {
        10
    };
    k
}

/// A command that holds none of the local keywords ("offline", "private",
/// "local", "mute", "unmute", "close tab", "new tab", "screenshot", "reload",
/// "go back", "go forward") and two different complex-reasoning keywords
/// among "analyze", "reason", "explain step by step", "code review",
/// "refactor", "debug", "write complex", "compare and contrast", "evaluate",
/// "synthesize" and "critique" scores at least 10 and is routed to the
/// premium tier.
pub proof fn lemma_two_complex_keywords_route_premium(lower: Seq<char>, kw1: Seq<char>, kw2: Seq<char>)
    requires
        !contains(lower, "offline"@),
        !contains(lower, "private"@),
        !contains(lower, "local"@),
        !contains(lower, "mute"@),
        !contains(lower, "unmute"@),
        !contains(lower, "close tab"@),
        !contains(lower, "new tab"@),
        !contains(lower, "screenshot"@),
        !contains(lower, "reload"@),
        !contains(lower, "go back"@),
        !contains(lower, "go forward"@),
        kw1 != kw2,
        contains(lower, kw1),
        contains(lower, kw2),
        kw1 == "analyze"@ || kw1 == "reason"@ || kw1 == "explain step by step"@ || kw1 == "code review"@
            || kw1 == "refactor"@ || kw1 == "debug"@ || kw1 == "write complex"@ || kw1 == "compare and contrast"@
            || kw1 == "evaluate"@ || kw1 == "synthesize"@ || kw1 == "critique"@,
        kw2 == "analyze"@ || kw2 == "reason"@ || kw2 == "explain step by step"@ || kw2 == "code review"@
            || kw2 == "refactor"@ || kw2 == "debug"@ || kw2 == "write complex"@ || kw2 == "compare and contrast"@
            || kw2 == "evaluate"@ || kw2 == "synthesize"@ || kw2 == "critique"@,
    ensures
        complexity(lower) == 10,
        tier_of_score(complexity(lower)) == Tier::Premium,
{
    let k1 = lemma_complex_keyword_index(kw1);
    let k2 = lemma_complex_keyword_index(kw2);
    let kws = complex_keywords();
    if k1 < k2 {
        lemma_count_two(lower, kws, k1, k2);
    } else {
        lemma_count_two(lower, kws, k2, k1);
    }
    assert(!contains_any(lower, local_keywords())) by {
        assert forall|k: int| 0 <= k < local_keywords().len() implies !contains(lower, #[trigger] local_keywords()[k]) by {
        }
    }
}

/// The provider chosen for a tier belongs to a lower tier only when no
/// provider of that tier has a key: for Premium, neither the custom endpoint
/// with its key nor an OpenRouter key; for Freemium, none of the OpenRouter,
/// Gemini, Groq and Hugging Face keys.
pub proof fn lemma_fallback_only_without_keys(c: AiConfig, t: Tier, p: SelectedProvider)
    requires
        realizes(p, provider_plan(c, t)),
    ensures
        t == Tier::Premium && selected_tier(p) != Tier::Premium ==> !(c.custom_endpoint is Some && c.custom_key is Some)
            && c.openrouter_key is None,
        t == Tier::Freemium && selected_tier(p) != Tier::Freemium ==> c.openrouter_key is None && c.gemini_key is None
            && c.groq_key is None && c.hf_token is None,
{
    lemma_realized_tier(p, provider_plan(c, t));
    reveal_with_fuel(provider_plan, 3);
}

/// For the Freemium tier the keys are tried in the order OpenRouter, Gemini,
/// Groq, Hugging Face: the first that is set chooses the provider, with that
/// key and the configured model of that provider.
pub proof fn lemma_freemium_key_order(c: AiConfig, p: SelectedProvider)
    requires
        realizes(p, provider_plan(c, Tier::Freemium)),
    ensures
        c.openrouter_key is Some ==> (p matches SelectedProvider::OpenRouter(q) && q.api_key() == c.openrouter_key->0@
            && q.model() == c.openrouter_model@ && q.tier_spec() == Tier::Freemium),
        (c.openrouter_key is None && c.gemini_key is Some) ==> (p matches SelectedProvider::Gemini(q)
            && q.api_key() == c.gemini_key->0@ && q.model() == c.gemini_model@),
        (c.openrouter_key is None && c.gemini_key is None && c.groq_key is Some) ==> (p matches SelectedProvider::Groq(q)
            && q.api_key() == c.groq_key->0@ && q.model() == c.groq_model@),
        (c.openrouter_key is None && c.gemini_key is None && c.groq_key is None && c.hf_token is Some) ==> (
        p matches SelectedProvider::HuggingFace(q) && q.api_token() == c.hf_token->0@ && q.model() == c.hf_model@),
{
}

/// For the Premium tier the custom endpoint (with its key) comes first,
/// then OpenRouter at the Premium tier; without either, the Freemium choice
/// is made.
pub proof fn lemma_premium_key_order(c: AiConfig, p: SelectedProvider)
    requires
        realizes(p, provider_plan(c, Tier::Premium)),
    ensures
        (c.custom_endpoint is Some && c.custom_key is Some) ==> (p matches SelectedProvider::OpenAiCompat(q)
            && q.endpoint() == c.custom_endpoint->0@ && q.api_key() == c.custom_key->0@
            && q.model() == c.custom_model@ && q.tier_spec() == Tier::Premium),
        (!(c.custom_endpoint is Some && c.custom_key is Some) && c.openrouter_key is Some) ==> (
        p matches SelectedProvider::OpenRouter(q) && q.api_key() == c.openrouter_key->0@
            && q.model() == c.openrouter_model@ && q.tier_spec() == Tier::Premium),
        (!(c.custom_endpoint is Some && c.custom_key is Some) && c.openrouter_key is None) ==> realizes(
            p,
            provider_plan(c, Tier::Freemium),
        ),
{
}

/// The provider list starts with Ollama at the local tier with its health as
/// checked, holds each remote provider whose key is set (the custom one when
/// both its endpoint and key are set) by name at its tier, and has exactly
/// one entry per configured provider.
pub proof fn lemma_provider_list_members(c: AiConfig, ollama_healthy: bool)
    ensures
        ({
            let list = provider_list(c, ollama_healthy);
            &&& list.len() > 0
            &&& list[0] == ("Ollama"@, Tier::Local, ollama_healthy)
            &&& c.openrouter_key is Some ==> exists|i: int| 0 < i < list.len() && #[trigger] list[i] == ("OpenRouter"@, Tier::Freemium, true)
            &&& c.gemini_key is Some ==> exists|i: int| 0 < i < list.len() && #[trigger] list[i] == ("Gemini"@, Tier::Freemium, true)
            &&& c.groq_key is Some ==> exists|i: int| 0 < i < list.len() && #[trigger] list[i] == ("Groq"@, Tier::Freemium, true)
            &&& c.hf_token is Some ==> exists|i: int| 0 < i < list.len() && #[trigger] list[i] == ("Hugging Face"@, Tier::Freemium, true)
            &&& (c.custom_endpoint is Some && c.custom_key is Some) ==> exists|i: int| 0 < i < list.len()
                && #[trigger] list[i] == ("Custom (Tier 3)"@, Tier::Premium, true)
            &&& list.len() == 1 + (if c.openrouter_key is Some { 1int } else { 0 }) + (if c.gemini_key is Some { 1int } else { 0 })
                + (if c.groq_key is Some { 1int } else { 0 }) + (if c.hf_token is Some { 1int } else { 0 })
                + (if c.custom_endpoint is Some && c.custom_key is Some { 1int } else { 0 })
        }),
{
    let list = provider_list(c, ollama_healthy);
    let a = seq![("Ollama"@, Tier::Local, ollama_healthy)];
    let b = if c.openrouter_key is Some { seq![("OpenRouter"@, Tier::Freemium, true)] } else { Seq::<(Seq<char>, Tier, bool)>::empty() };
    let g = if c.gemini_key is Some { seq![("Gemini"@, Tier::Freemium, true)] } else { Seq::<(Seq<char>, Tier, bool)>::empty() };
    let q = if c.groq_key is Some { seq![("Groq"@, Tier::Freemium, true)] } else { Seq::<(Seq<char>, Tier, bool)>::empty() };
    let h = if c.hf_token is Some { seq![("Hugging Face"@, Tier::Freemium, true)] } else { Seq::<(Seq<char>, Tier, bool)>::empty() };
    let x = if c.custom_endpoint is Some && c.custom_key is Some {
        seq![(custom_provider_name(), Tier::Premium, true)]
    } else {
        Seq::<(Seq<char>, Tier, bool)>::empty()
    };
    assert(list == a + b + g + q + h + x);
    assert(list[0] == a[0]);
    if c.openrouter_key is Some {
        let i = a.len() as int;
        assert(list[i] == b[0]);
    }
    if c.gemini_key is Some {
        let i = (a.len() + b.len()) as int;
        assert(list[i] == g[0]);
    }
    if c.groq_key is Some {
        let i = (a.len() + b.len() + g.len()) as int;
        assert(list[i] == q[0]);
    }
    if c.hf_token is Some {
        let i = (a.len() + b.len() + g.len() + q.len()) as int;
        assert(list[i] == h[0]);
    }
    if c.custom_endpoint is Some && c.custom_key is Some {
        let i = (a.len() + b.len() + g.len() + q.len() + h.len()) as int;
        assert(list[i] == x[0]);
    }
}

impl Default for AiRouter {
    fn default() -> (r: Self)
        ensures
            is_default_config(r.current_config()),
    {
        Self::new()
    }
}

} // verus!
