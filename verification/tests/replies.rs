use cntrl_browser::ai::huggingface::HuggingFaceProvider;
use cntrl_browser::ai::openrouter::OpenRouterProvider;
use cntrl_browser::ai::{chat_request, CompletionRequest, CompletionResponse, Tier};
use cntrl_browser::error::CntrlError;

#[test]
fn chat_reply_reads_first_choice_and_tokens() {
    let body = br#"{"choices":[{"message":{"content":"Hello!"}}],"usage":{"total_tokens":42}}"#;
    let r = CompletionResponse::from_chat_body("Groq", body, "llama".into(), Tier::Freemium).unwrap();
    assert_eq!(r.text, "Hello!");
    assert_eq!(r.tokens_used, Some(42));
    assert_eq!(r.model, "llama");
    assert_eq!(r.tier, Tier::Freemium);
}

#[test]
fn chat_reply_without_content_has_notice() {
    let body = br#"{"choices":[]}"#;
    let r = CompletionResponse::from_chat_body("Groq", body, "m".into(), Tier::Premium).unwrap();
    assert_eq!(r.text, "No response generated");
    assert_eq!(r.tokens_used, None);
    let odd = br#"{"choices":{"0":{"message":{"content":"x"}}}}"#;
    let r = CompletionResponse::from_chat_body("Groq", odd, "m".into(), Tier::Premium).unwrap();
    assert_eq!(r.text, "No response generated");
}

#[test]
fn reply_that_is_not_json_is_an_error() {
    match CompletionResponse::from_chat_body("OpenRouter", b"<html>", "m".into(), Tier::Freemium) {
        Err(CntrlError::Ai(m)) => assert_eq!(m, "OpenRouter JSON parse error: error decoding response body"),
        other => panic!("unexpected {other:?}"),
    }
    match CompletionResponse::from_ollama_body(b"", "m".into()) {
        Err(CntrlError::Ai(m)) => assert_eq!(m, "Ollama JSON parse error: error decoding response body"),
        other => panic!("unexpected {other:?}"),
    }
}

#[test]
fn ollama_reply() {
    let body = br#"{"response":"hi there","eval_count":7}"#;
    let r = CompletionResponse::from_ollama_body(body, "llama3".into()).unwrap();
    assert_eq!(r.text, "hi there");
    assert_eq!(r.tokens_used, Some(7));
    assert_eq!(r.tier, Tier::Local);
}

#[test]
fn gemini_reply() {
    let body = br#"{"candidates":[{"content":{"parts":[{"text":"G"}]}}],"usageMetadata":{"totalTokenCount":3}}"#;
    let r = CompletionResponse::from_gemini_body(body, "gemini".into()).unwrap();
    assert_eq!(r.text, "G");
    assert_eq!(r.tokens_used, Some(3));
    assert_eq!(r.tier, Tier::Freemium);
}

#[test]
fn hf_reply_list_or_object() {
    let list = br#"[{"generated_text":"from list"}]"#;
    assert_eq!(HuggingFaceProvider::response_from_body(list, "m".into()).unwrap().text, "from list");
    let object = br#"{"generated_text":"from object"}"#;
    assert_eq!(HuggingFaceProvider::response_from_body(object, "m".into()).unwrap().text, "from object");
    let empty = br#"[]"#;
    assert_eq!(HuggingFaceProvider::response_from_body(empty, "m".into()).unwrap().text, "No response generated");
    match HuggingFaceProvider::response_from_body(b"nope", "m".into()) {
        Err(CntrlError::Ai(m)) => assert_eq!(m, "HF JSON parse error: error decoding response body"),
        other => panic!("unexpected {other:?}"),
    }
}

#[test]
fn hf_model_list() {
    let body = br#"[{"id":"a/b","downloads":10},{"id":"c/d"},{"downloads":5}]"#;
    let models = HuggingFaceProvider::models_from_body(body).unwrap();
    assert_eq!(models.len(), 3);
    assert_eq!((models[0].id.as_str(), models[0].downloads), ("a/b", 10));
    assert_eq!((models[1].id.as_str(), models[1].downloads), ("c/d", 0));
    assert_eq!((models[2].id.as_str(), models[2].downloads), ("", 5));
    assert!(HuggingFaceProvider::models_from_body(br#"{"error":"x"}"#).unwrap().is_empty());
    match HuggingFaceProvider::models_from_body(b"{") {
        Err(CntrlError::Ai(m)) => assert_eq!(m, "HF JSON error: error decoding response body"),
        other => panic!("unexpected {other:?}"),
    }
}

#[test]
fn openrouter_model_list() {
    let body = br#"{"data":[
        {"id":"x/free","name":"Free One","context_length":8192,"pricing":{"prompt":"0"}},
        {"id":"y/paid","pricing":{"prompt":"0.001"}},
        {"id":"z/none"}
    ]}"#;
    let models = OpenRouterProvider::models_from_body(body).unwrap();
    assert_eq!(models.len(), 3);
    assert_eq!(models[0].name, "Free One");
    assert_eq!(models[0].context_length, 8192);
    assert!(models[0].is_free);
    assert_eq!(models[1].name, "y/paid");
    assert!(!models[1].is_free);
    assert_eq!(models[2].prompt_price, "0");
    assert!(models[2].is_free);
    assert_eq!(OpenRouterProvider::free_model_ids(models), vec!["x/free".to_string(), "z/none".to_string()]);
    assert!(OpenRouterProvider::models_from_body(b"[]").unwrap().is_empty());
}

#[test]
fn chat_request_fields() {
    let req = CompletionRequest { prompt: "p".into(), system: None, context: None, max_tokens: Some(64) };
    let r = chat_request("model-x", &req);
    assert_eq!(r.model, "model-x");
    assert_eq!(r.messages, vec![("user".to_string(), "p".to_string())]);
    assert_eq!(r.max_tokens, Some(64));
}
