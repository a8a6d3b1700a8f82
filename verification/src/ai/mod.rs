//! AI subsystem: tiers, request and response types, the per-provider request
//! shapes, and tier-based routing. The network calls themselves are made by
//! the application around this library.

pub mod gemini;
pub mod groq;
pub mod huggingface;
pub mod json;
pub mod ollama;
pub mod openai_compat;
pub mod openrouter;
pub mod router;

use vstd::prelude::*;
use vstd::string::*;
use crate::error::CntrlError;
use crate::text::{concat_str, opt_view};
use json::{
    decode_failure, decode_failure_message, json_array_len_at, json_array_length, json_number_at, json_parses,
    json_str_at, json_string_at, json_u64_at, json_valid, text_or,
};

verus! {

// ── Tier classification ────────────────────────────────────────────────

/// The three AI tiers used for complexity-based routing.
#[derive(Debug, Clone, Copy, PartialEq, Eq, Structural)]
pub enum Tier {
    /// Tier 1 — local models (Ollama). Zero network calls.
    Local,
    /// Tier 2 — free/freemium cloud models (Gemini Flash, Groq, HF, OpenRouter free).
    Freemium,
    /// Tier 3 — precision / paid models (OpenAI-compatible, OpenRouter paid).
    Premium,
}

/// The position of a tier in the chain: Local below Freemium below Premium.
pub open spec fn tier_rank(t: Tier) -> int {
    match t {
        Tier::Local => 1,
        Tier::Freemium => 2,
        Tier::Premium => 3,
    }
}

// ── Request / Response ─────────────────────────────────────────────────

/// A completion request sent to any provider.
#[derive(Debug, Clone)]
pub struct CompletionRequest {
    /// The user prompt or instruction.
    pub prompt: String,
    /// Optional system message prepended to the conversation.
    pub system: Option<String>,
    /// Optional context from memory / page content.
    pub context: Option<String>,
    /// Maximum tokens to generate (provider may ignore if unsupported).
    pub max_tokens: Option<u32>,
}

/// A completion response returned by any provider.
#[derive(Debug, Clone)]
pub struct CompletionResponse {
    /// The generated text.
    pub text: String,
    /// Tokens consumed (if the provider reports it).
    pub tokens_used: Option<u32>,
    /// Provider-reported model identifier.
    pub model: String,
    /// Which tier handled this request.
    pub tier: Tier,
}

/// Summary info about a configured provider (exposed to the frontend).
#[derive(Debug, Clone)]
pub struct ProviderInfo {
    /// Human-readable name, e.g. "Ollama", "Gemini Flash".
    pub name: String,
    /// Which tier this provider belongs to.
    pub tier: Tier,
    /// Whether the provider is currently reachable.
    pub healthy: bool,
}

// ── Provider trait ─────────────────────────────────────────────────────

/// Every AI backend implements this trait: a name and the tier it serves.
/// The router picks the provider for a tier; sending a request and checking
/// that a provider is reachable are network calls made around this library.
pub trait Provider {
    /// The provider's human-readable name.
    spec fn provider_name(&self) -> Seq<char>;

    /// The tier the provider belongs to.
    spec fn provider_tier(&self) -> Tier;

    /// Human-readable provider name.
    fn name(&self) -> (r: &str)
        ensures
            r@ == self.provider_name(),
    ;

    /// Which tier this provider belongs to.
    fn tier(&self) -> (r: Tier)
        ensures
            r == self.provider_tier(),
    ;
}

/// The text a provider replies when its answer holds no generated text.
pub open spec fn no_response_text() -> Seq<char> {
    "No response generated"@
}

/// A token count as a provider reports it, narrowed to 32 bits.
pub open spec fn narrowed_tokens(tokens: Option<u64>) -> Option<u32> {
    match tokens {
        Some(n) => Some(n as u32),
        None => None,
    }
}

impl CompletionResponse {
    /// The response built from what a provider's reply held: the generated
    /// text, or a fixed notice when there is none, and the token count
    /// narrowed to 32 bits.
    pub fn from_reply(text: Option<String>, tokens_used: Option<u64>, model: String, tier: Tier) -> (r: CompletionResponse)
        ensures
            r.text@ == (match opt_view(text) {
                Some(t) => t,
                None => no_response_text(),
            }),
            r.tokens_used == narrowed_tokens(tokens_used),
            r.model == model,
            r.tier == tier,
    {
        let text = match text {
            Some(t) => t,
            None => "No response generated".to_owned(),
        };
        let tokens_used = match tokens_used {
            Some(n) => Some(n as u32),
            None => None,
        };
        CompletionResponse { text, tokens_used, model, tier }
    }

    /// The response in a chat-completions reply `body` (OpenAI-compatible,
    /// OpenRouter, Groq): the first choice's message content and the total
    /// token count. A body that is not JSON gives the error
    /// `"<who> JSON parse error: ..."`.
    pub fn from_chat_body(who: &str, body: &[u8], model: String, tier: Tier) -> (r: Result<CompletionResponse, CntrlError>)
        ensures
            reply_answer(
                who@ + " JSON parse error"@,
                body@,
                chat_reply_text(body@),
                json_u64_at(body@, "/usage/total_tokens"@),
                model,
                tier,
                r,
            ),
    {
        let label = concat_str(who, " JSON parse error");
        if !json_parses(body) {
            return Err(decode_failure(label.as_str()));
        }
        let text = if json_array_length(body, "/choices").is_some() {
            json_string_at(body, "/choices/0/message/content")
        } else {
            None
        };
        let tokens = json_number_at(body, "/usage/total_tokens");
        Ok(Self::from_reply(text, tokens, model, tier))
    }

    /// The response in an Ollama reply `body`: its `response` text and its
    /// `eval_count`, at the Local tier.
    pub fn from_ollama_body(body: &[u8], model: String) -> (r: Result<CompletionResponse, CntrlError>)
        ensures
            reply_answer(
                "Ollama JSON parse error"@,
                body@,
                json_str_at(body@, "/response"@),
                json_u64_at(body@, "/eval_count"@),
                model,
                Tier::Local,
                r,
            ),
    {
        if !json_parses(body) {
            return Err(decode_failure("Ollama JSON parse error"));
        }
        let text = json_string_at(body, "/response");
        let tokens = json_number_at(body, "/eval_count");
        Ok(Self::from_reply(text, tokens, model, Tier::Local))
    }

    /// The response in a Gemini reply `body`: the first candidate's first
    /// part and the total token count, at the Freemium tier.
    pub fn from_gemini_body(body: &[u8], model: String) -> (r: Result<CompletionResponse, CntrlError>)
        ensures
            reply_answer(
                "Gemini JSON parse error"@,
                body@,
                gemini_reply_text(body@),
                json_u64_at(body@, "/usageMetadata/totalTokenCount"@),
                model,
                Tier::Freemium,
                r,
            ),
    {
        if !json_parses(body) {
            return Err(decode_failure("Gemini JSON parse error"));
        }
        let text = if json_array_length(body, "/candidates").is_some() && json_array_length(
            body,
            "/candidates/0/content/parts",
        ).is_some() {
            json_string_at(body, "/candidates/0/content/parts/0/text")
        } else {
            None
        };
        let tokens = json_number_at(body, "/usageMetadata/totalTokenCount");
        Ok(Self::from_reply(text, tokens, model, Tier::Freemium))
    }
}

// ── Replies ────────────────────────────────────────────────────────────

/// The reply text of a chat-completions body: the content of the first
/// choice's message, when the body has a list of choices.
pub open spec fn chat_reply_text(body: Seq<u8>) -> Option<Seq<char>> {
    if json_array_len_at(body, "/choices"@) is Some {
        json_str_at(body, "/choices/0/message/content"@)
    } else {
        None
    }
}

/// The reply text of a Gemini body: the text of the first part of the first
/// candidate's content, when there are lists of candidates and of parts.
pub open spec fn gemini_reply_text(body: Seq<u8>) -> Option<Seq<char>> {
    if json_array_len_at(body, "/candidates"@) is Some && json_array_len_at(body, "/candidates/0/content/parts"@) is Some {
        json_str_at(body, "/candidates/0/content/parts/0/text"@)
    } else {
        None
    }
}

/// `r` is the answer to a reply `body`: a decoding error labelled
/// `label` when the body is not JSON, otherwise a response with the text
/// found (or the no-response notice), the token count found (narrowed to 32
/// bits), `model` and `tier`.
pub open spec fn reply_answer(
    label: Seq<char>,
    body: Seq<u8>,
    text: Option<Seq<char>>,
    tokens: Option<u64>,
    model: String,
    tier: Tier,
    r: Result<CompletionResponse, CntrlError>,
) -> bool {
    if json_valid(body) {
        r matches Ok(resp) && {
            &&& resp.text@ == text_or(text, no_response_text())
            &&& resp.tokens_used == narrowed_tokens(tokens)
            &&& resp.model == model
            &&& resp.tier == tier
        }
    } else {
        r matches Err(CntrlError::Ai(m)) && m@ == decode_failure_message(label)
    }
}

// ── Prompt shapes ──────────────────────────────────────────────────────

/// The context block that precedes the prompt: `Context:` and the context,
/// followed by a blank line; nothing when there is no context.
pub open spec fn context_block(context: Option<Seq<char>>) -> Seq<char> {
    match context {
        Some(c) => "Context:\n"@ + c + "\n\n"@,
        None => seq![],
    }
}

/// The system block that precedes everything else in a plain prompt.
pub open spec fn system_block(system: Option<Seq<char>>) -> Seq<char> {
    match system {
        Some(s) => s + "\n\n"@,
        None => seq![],
    }
}

/// The user message of a chat request: the context block, then the prompt.
pub open spec fn chat_user_text(req: CompletionRequest) -> Seq<char> {
    context_block(opt_view(req.context)) + req.prompt@
}

/// A single-string prompt: the system block, the context block, then the
/// prompt.
pub open spec fn plain_prompt_text(req: CompletionRequest) -> Seq<char> {
    system_block(opt_view(req.system)) + context_block(opt_view(req.context)) + req.prompt@
}

fn context_block_exec(context: &Option<String>) -> (r: String)
    ensures
        r@ == context_block(opt_view(*context)),
{
    match context {
        Some(c) => {
            let head = concat_str("Context:\n", c.as_str());
            let r = concat_str(head.as_str(), "\n\n");
            assert(r@ =~= context_block(opt_view(*context)));
            r
        },
        None => String::new(),
    }
}

/// The user message of a chat-completions request.
pub fn chat_user_content(req: &CompletionRequest) -> (r: String)
    ensures
        r@ == chat_user_text(*req),
{
    let block = context_block_exec(&req.context);
    concat_str(block.as_str(), req.prompt.as_str())
}

/// The messages of a chat request as (role, content) pairs: the system
/// message when the request has one, then the user message.
pub open spec fn chat_messages_of(req: CompletionRequest) -> Seq<(Seq<char>, Seq<char>)> {
    match opt_view(req.system) {
        Some(s) => seq![("system"@, s), ("user"@, chat_user_text(req))],
        None => seq![("user"@, chat_user_text(req))],
    }
}

/// The (role, content) views of a list of chat messages.
pub open spec fn message_views(v: Seq<(String, String)>) -> Seq<(Seq<char>, Seq<char>)> {
    v.map_values(|m: (String, String)| (m.0@, m.1@))
}

/// The messages of a chat-completions request, in order.
pub fn chat_messages(req: &CompletionRequest) -> (r: Vec<(String, String)>)
    ensures
        message_views(r@) == chat_messages_of(*req),
{
    let mut r: Vec<(String, String)> = Vec::new();
    match &req.system {
        Some(system) => r.push(("system".to_owned(), system.clone())),
        None => {},
    }
    r.push(("user".to_owned(), chat_user_content(req)));
    assert(message_views(r@) =~= chat_messages_of(*req));
    r
}

/// The fields of a chat-completions request body: the model, the messages
/// in order, and the token limit, sent only when there is one.
#[derive(Debug, Clone)]
pub struct ChatRequest {
    /// The model identifier.
    pub model: String,
    /// The (role, content) messages, in order.
    pub messages: Vec<(String, String)>,
    /// The token limit, when the request sets one.
    pub max_tokens: Option<u32>,
}

/// The chat-completions request for `model` that carries `req`.
pub fn chat_request(model: &str, req: &CompletionRequest) -> (r: ChatRequest)
    ensures
        r.model@ == model@,
        message_views(r.messages@) == chat_messages_of(*req),
        r.max_tokens == req.max_tokens,
{
    ChatRequest { model: model.to_owned(), messages: chat_messages(req), max_tokens: req.max_tokens }
}

/// The single-string prompt of a text-generation request.
pub fn plain_prompt(req: &CompletionRequest) -> (r: String)
    ensures
        r@ == plain_prompt_text(*req),
{
    let system = match &req.system {
        Some(s) => concat_str(s.as_str(), "\n\n"),
        None => String::new(),
    };
    let context = context_block_exec(&req.context);
    let head = concat_str(system.as_str(), context.as_str());
    let r = concat_str(head.as_str(), req.prompt.as_str());
    assert(r@ =~= plain_prompt_text(*req));
    r
}

} // verus!
