use cntrl_browser::ai::router::tier_name;
use cntrl_browser::error::CntrlError;
use cntrl_browser::privacy::PrivacyGuard;
use cntrl_browser::ai::gemini::GeminiProvider;
use cntrl_browser::ai::groq::GroqProvider;
use cntrl_browser::ai::huggingface::{HfModelInfo, HuggingFaceProvider};
use cntrl_browser::ai::ollama::OllamaProvider;
use cntrl_browser::ai::openai_compat::OpenAiCompatProvider;
use cntrl_browser::ai::openrouter::{OpenRouterModel, OpenRouterProvider};
use cntrl_browser::ai::router::{AiConfig, AiRouter};
use cntrl_browser::ai::{chat_messages, chat_user_content, plain_prompt, CompletionRequest, CompletionResponse, Provider, Tier};

#[test]
fn gemini_provider_metadata() {
    let p = GeminiProvider::new("test-key".into(), "gemini-2.0-flash".into());
    assert_eq!(p.name(), "Gemini");
    assert_eq!(p.tier(), Tier::Freemium);
}

#[test]
fn groq_provider_metadata() {
    let p = GroqProvider::new("test-key".into(), "llama3-8b-8192".into());
    assert_eq!(p.name(), "Groq");
    assert_eq!(p.tier(), Tier::Freemium);
}

#[test]
fn huggingface_provider_metadata() {
    let p = HuggingFaceProvider::new("hf_test".into(), "test-model".into());
    assert_eq!(p.name(), "Hugging Face");
    assert_eq!(p.tier(), Tier::Freemium);
}

#[test]
fn ollama_provider_metadata() {
    let p = OllamaProvider::new("http://localhost:11434".into(), "llama3".into());
    assert_eq!(p.name(), "Ollama");
    assert_eq!(p.tier(), Tier::Local);
}

#[test]
fn openai_compat_provider_metadata() {
    let p = OpenAiCompatProvider::new(
        "TestProvider".into(),
        "https://example.com/v1/chat/completions".into(),
        "sk-test".into(),
        "gpt-4o".into(),
        Tier::Premium,
    );
    assert_eq!(p.name(), "TestProvider");
    assert_eq!(p.tier(), Tier::Premium);
}

#[test]
fn openrouter_provider_metadata() {
    let p = OpenRouterProvider::new("sk-test".into(), "test-model".into(), Tier::Freemium);
    assert_eq!(p.name(), "OpenRouter");
    assert_eq!(p.tier(), Tier::Freemium);
}

#[test]
fn complexity_scoring_local() {
    // Simple system commands → Tier 1
    assert!(AiRouter::score_complexity("mute") <= 3);
    assert!(AiRouter::score_complexity("close tab") <= 3);
    assert!(AiRouter::score_complexity("take a screenshot") <= 3);
    assert!(AiRouter::score_complexity("go back") <= 3);
    assert!(AiRouter::score_complexity("keep it private and offline") <= 3);
}

#[test]
fn complexity_scoring_freemium() {
    // Medium complexity → Tier 2
    let score = AiRouter::score_complexity("summarize this page for me");
    assert!((4..=7).contains(&score), "score was {score}");
    let score = AiRouter::score_complexity("search for the best lo-fi playlists");
    assert!((4..=7).contains(&score), "score was {score}");
}

#[test]
fn complexity_scoring_premium() {
    // Complex reasoning → Tier 3
    let score = AiRouter::score_complexity(
        "analyze the logical fallacies in this argument and explain step by step",
    );
    assert!(score >= 8, "score was {score}");
}

#[test]
fn tier_for_score_boundaries() {
    assert_eq!(AiRouter::tier_for_score(0), Tier::Local);
    assert_eq!(AiRouter::tier_for_score(3), Tier::Local);
    assert_eq!(AiRouter::tier_for_score(4), Tier::Freemium);
    assert_eq!(AiRouter::tier_for_score(7), Tier::Freemium);
    assert_eq!(AiRouter::tier_for_score(8), Tier::Premium);
    assert_eq!(AiRouter::tier_for_score(10), Tier::Premium);
}

#[test]
fn sample_intent_scoring() {
    let intents = vec![
        "go to reddit".to_string(),
        "search for best lo-fi playlists".to_string(),
        "analyze this code and debug it".to_string(),
        "mute".to_string(),
        "take a screenshot".to_string(),
        "summarize this page".to_string(),
        "translate this to Spanish".to_string(),
        "write complex react hook for debouncing".to_string(),
        "what is the weather today".to_string(),
        "offline private browsing mode".to_string(),
    ];

    let results = AiRouter::score_sample_intents(intents);
    let mut correct = 0;

    let expected_tiers = [
        Tier::Freemium,
        Tier::Freemium,
        Tier::Premium,
        Tier::Local,
        Tier::Local,
        Tier::Freemium,
        Tier::Freemium,
        Tier::Premium,
        Tier::Freemium,
        Tier::Local,
    ];

    for (i, (_, tier, _)) in results.iter().enumerate() {
        if let Some(expected) = expected_tiers.get(i) {
            if tier == expected {
                correct += 1;
            }
        }
    }

    assert!(
        correct >= 8,
        "Only {correct}/10 intents matched expected tier (need ≥ 8)"
    );
}

#[test]
fn fallback_builds_ollama_when_no_keys() {
    let router = AiRouter::new();
    // With no keys, Freemium should fall back to Local (Ollama)
    let provider = router.build_provider_for_tier(Tier::Freemium);
    assert!(provider.is_some());
    let p = provider.expect("should have a provider");
    assert_eq!(p.name(), "Ollama");
}

#[test]
fn router_defaults() {
    let router = AiRouter::new();
    let masked = router.get_config_masked();
    assert_eq!(masked.active_tier, Tier::Freemium);
    assert!(!masked.openrouter_key_set);
    assert!(!masked.gemini_key_set);
}

#[test]
fn complexity_exact_scores() {
    assert_eq!(AiRouter::score_complexity("mute"), 2);
    assert_eq!(AiRouter::score_complexity("Go Back"), 2);
    assert_eq!(AiRouter::score_complexity("summarize this page"), 4);
    assert_eq!(AiRouter::score_complexity("DEBUG this"), 7);
    assert_eq!(AiRouter::score_complexity("analyze and debug and refactor"), 10);
    assert_eq!(AiRouter::score_complexity("if it rains then stay"), 5);
    let long: String = "word ".repeat(21);
    assert_eq!(AiRouter::score_complexity(&long), 5);
    let longer: String = "word ".repeat(51);
    assert_eq!(AiRouter::score_complexity(&longer), 6);
    assert_eq!(AiRouter::score_intent("analyze and evaluate"), Tier::Premium);
    assert_eq!(AiRouter::score_intent("offline analyze evaluate"), Tier::Local);
}

#[test]
fn router_fallback_chain() {
    let mut router = AiRouter::new();
    assert_eq!(router.build_provider_for_tier(Tier::Premium).unwrap().name(), "Ollama");

    let mut config = AiConfig::default();
    config.groq_key = Some("gk".to_string());
    config.hf_token = Some("hf".to_string());
    router.update_config(config.clone());
    let p = router.build_provider_for_tier(Tier::Premium).unwrap();
    assert_eq!(p.name(), "Groq");
    assert_eq!(p.tier(), Tier::Freemium);
    assert_eq!(router.build_provider_for_tier(Tier::Local).unwrap().name(), "Ollama");

    config.openrouter_key = Some("or".to_string());
    router.update_config(config.clone());
    let p = router.build_provider_for_tier(Tier::Premium).unwrap();
    assert_eq!(p.name(), "OpenRouter");
    assert_eq!(p.tier(), Tier::Premium);
    assert_eq!(router.build_provider_for_tier(Tier::Freemium).unwrap().tier(), Tier::Freemium);

    config.custom_endpoint = Some("https://llm.example/v1/chat/completions".to_string());
    config.custom_key = Some("ck".to_string());
    router.update_config(config.clone());
    let p = router.build_provider_for_tier(Tier::Premium).unwrap();
    assert_eq!(p.name(), "Custom (Tier 3)");
    assert_eq!(p.tier(), Tier::Premium);

    let masked = router.get_config_masked();
    assert!(masked.openrouter_key_set && masked.groq_key_set && masked.hf_token_set && masked.custom_endpoint_set);
    assert!(!masked.gemini_key_set);

    let listed: Vec<String> = router.get_available_providers(false).into_iter().map(|p| p.name).collect();
    assert_eq!(listed, vec!["Ollama", "OpenRouter", "Groq", "Hugging Face", "Custom (Tier 3)"]);
    let ollama = &router.get_available_providers(true)[0];
    assert!(ollama.healthy);
    assert_eq!(ollama.tier, Tier::Local);
}

#[test]
fn provider_request_shapes() {
    let req = CompletionRequest {
        prompt: "Hi".to_string(),
        system: Some("Be brief".to_string()),
        context: Some("page".to_string()),
        max_tokens: None,
    };
    assert_eq!(plain_prompt(&req), "Be brief\n\nContext:\npage\n\nHi");
    assert_eq!(chat_user_content(&req), "Context:\npage\n\nHi");
    assert_eq!(GeminiProvider::request_parts(&req), vec!["Be brief", "Context:\npage", "Hi"]);
    assert_eq!(HuggingFaceProvider::max_new_tokens(&req), 512);
    let bare = CompletionRequest { prompt: "Hi".to_string(), system: None, context: None, max_tokens: Some(7) };
    assert_eq!(plain_prompt(&bare), "Hi");
    assert_eq!(HuggingFaceProvider::max_new_tokens(&bare), 7);

    let ollama = OllamaProvider::new("http://localhost:11434//".into(), "llama3".into());
    assert_eq!(ollama.generate_url(), "http://localhost:11434/api/generate");
    assert_eq!(ollama.tags_url(), "http://localhost:11434/api/tags");
    let gemini = GeminiProvider::new("k1".into(), "gemini-2.0-flash".into());
    assert_eq!(
        gemini.generate_url(),
        "https://generativelanguage.googleapis.com/v1beta/models/gemini-2.0-flash:generateContent?key=k1"
    );
    let compat = OpenAiCompatProvider::new(
        "T".into(),
        "https://example.com/v1/chat/completions".into(),
        "sk".into(),
        "m".into(),
        Tier::Premium,
    );
    assert_eq!(compat.models_url(), "https://example.com/v1/models");
    assert!(HuggingFaceProvider::reachable_status(503));
    assert!(HuggingFaceProvider::reachable_status(200));
    assert!(!HuggingFaceProvider::reachable_status(404));
}

#[test]
fn provider_replies_and_model_lists() {
    let r = CompletionResponse::from_reply(None, Some(4_294_967_297), "m".to_string(), Tier::Local);
    assert_eq!(r.text, "No response generated");
    assert_eq!(r.tokens_used, Some(1));
    let r = CompletionResponse::from_reply(Some("ok".to_string()), None, "m".to_string(), Tier::Premium);
    assert_eq!(r.text, "ok");
    assert_eq!(r.tokens_used, None);

    let free = OpenRouterModel::from_fields(Some("a:free".into()), None, Some(8192), None);
    assert_eq!(free.name, "a:free");
    assert!(free.is_free);
    let paid = OpenRouterModel::from_fields(Some("b".into()), Some("B".into()), None, Some("0.002".into()));
    assert!(!paid.is_free);
    assert_eq!(paid.context_length, 0);
    assert_eq!(OpenRouterProvider::free_model_ids(vec![free, paid]), vec!["a:free".to_string()]);

    let hf = HfModelInfo::from_fields(None, Some(12));
    assert_eq!(hf.id, "");
    assert_eq!(hf.downloads, 12);
    assert_eq!(
        HuggingFaceProvider::model_ids(vec![HfModelInfo::from_fields(Some("x".into()), None), hf]),
        vec!["x".to_string(), "".to_string()]
    );
}

#[test]
fn chat_messages_system_then_user() {
    let req = CompletionRequest {
        prompt: "hi".into(),
        system: Some("be brief".into()),
        context: Some("page".into()),
        max_tokens: None,
    };
    assert_eq!(
        chat_messages(&req),
        vec![
            ("system".to_string(), "be brief".to_string()),
            ("user".to_string(), "Context:\npage\n\nhi".to_string()),
        ]
    );
    let plain = CompletionRequest { prompt: "hi".into(), system: None, context: None, max_tokens: Some(5) };
    assert_eq!(chat_messages(&plain), vec![("user".to_string(), "hi".to_string())]);
}

#[test]
fn hf_reply_text_by_shape() {
    assert_eq!(
        HuggingFaceProvider::reply_text(true, Some("a".into()), Some("b".into())),
        Some("a".to_string())
    );
    assert_eq!(HuggingFaceProvider::reply_text(true, None, Some("b".into())), None);
    assert_eq!(
        HuggingFaceProvider::reply_text(false, Some("a".into()), Some("b".into())),
        Some("b".to_string())
    );
}

#[test]
fn privacy_mode_routes_only_to_local() {
    let mut router = AiRouter::new();
    let mut config = AiConfig::default();
    config.groq_key = Some("gk".into());
    router.update_config(config);
    let mut guard = PrivacyGuard::new(false);
    assert_eq!(router.guarded_provider_for_tier(&guard, Tier::Freemium).unwrap().name(), "Groq");
    guard.enable();
    match router.guarded_provider_for_tier(&guard, Tier::Freemium) {
        Err(CntrlError::Ai(m)) => {
            assert_eq!(m, "Privacy mode is active — remote AI calls (tier: Freemium) are blocked")
        },
        other => panic!("unexpected {other:?}"),
    }
    // Premium falls back to Groq (Freemium), which is refused as well.
    assert!(router.guarded_provider_for_tier(&guard, Tier::Premium).is_err());
    assert_eq!(router.guarded_provider_for_tier(&guard, Tier::Local).unwrap().name(), "Ollama");
    assert_eq!(tier_name(Tier::Premium), "Premium");
}
