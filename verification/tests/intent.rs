use cntrl_browser::intent::{extract_after_keywords, extract_url_or_site, parse_intent, parse_lowered, IntentType};

#[test]
fn parse_navigate_intent() {
    let result = parse_intent("go to reddit").expect("should parse");
    assert_eq!(result.intent_type, IntentType::Navigate);
    assert_eq!(result.slots.get("url").map(String::as_str), Some("https://reddit.com"));
}

#[test]
fn parse_search_intent() {
    let result = parse_intent("search for best lo-fi playlists").expect("should parse");
    assert_eq!(result.intent_type, IntentType::Search);
    assert!(result.slots.contains_key("query"));
}

#[test]
fn parse_scrape_intent() {
    let result = parse_intent("get the bitcoin price").expect("should parse");
    assert_eq!(result.intent_type, IntentType::Scrape);
    assert!(result.slots.contains_key("target"));
}

#[test]
fn parse_system_mute() {
    let result = parse_intent("mute").expect("should parse");
    assert_eq!(result.intent_type, IntentType::System);
}

#[test]
fn parse_system_screenshot() {
    let result = parse_intent("take a screenshot").expect("should parse");
    assert_eq!(result.intent_type, IntentType::System);
}

#[test]
fn parse_compose_intent() {
    let result = parse_intent("write an email to my professor").expect("should parse");
    assert_eq!(result.intent_type, IntentType::Compose);
}

#[test]
fn parse_query_intent() {
    let result = parse_intent("summarize this page").expect("should parse");
    assert_eq!(result.intent_type, IntentType::Query);
}

#[test]
fn parse_macro_intent() {
    let result = parse_intent("record this workflow").expect("should parse");
    assert_eq!(result.intent_type, IntentType::Macro);
}

#[test]
fn parse_empty_input() {
    let result = parse_intent("");
    assert!(result.is_err());
}

#[test]
fn parse_navigate_with_url() {
    let result = parse_intent("go to https://example.com").expect("should parse");
    assert_eq!(result.intent_type, IntentType::Navigate);
    assert_eq!(
        result.slots.get("url").map(String::as_str),
        Some("https://example.com")
    );
}

#[test]
fn parse_20_commands_at_least_18_correct() {
    let commands = vec![
        ("go to youtube", IntentType::Navigate),
        ("open reddit", IntentType::Navigate),
        ("search for rust tutorials", IntentType::Search),
        ("find me a recipe", IntentType::Search),
        ("get the bitcoin price", IntentType::Scrape),
        ("what's the price of ethereum", IntentType::Scrape),
        ("write an email to john", IntentType::Compose),
        ("draft a reply to the customer", IntentType::Compose),
        ("mute", IntentType::System),
        ("take a screenshot", IntentType::System),
        ("close all tabs", IntentType::System),
        ("unmute", IntentType::System),
        ("summarize this page", IntentType::Query),
        ("translate this to Spanish", IntentType::Query),
        ("explain how DNS works", IntentType::Query),
        ("record this workflow", IntentType::Macro),
        ("search for best coffee shops", IntentType::Search),
        ("navigate to github.com", IntentType::Navigate),
        ("what does this function do", IntentType::Query),
        ("look up the weather", IntentType::Search),
    ];

    let mut correct = 0;
    for (cmd, expected) in &commands {
        let result = parse_intent(cmd).expect("should parse");
        if result.intent_type == *expected {
            correct += 1;
        }
    }

    assert!(
        correct >= 18,
        "Only {correct}/20 commands matched (need ≥ 18)"
    );
}

#[test]
fn parse_whitespace_only_is_refused() {
    assert!(parse_intent(" \t\n ").is_err());
}

#[test]
fn parse_uppercase_is_lowercased_before_matching() {
    let result = parse_intent("  GO TO Reddit  ").expect("should parse");
    assert_eq!(result.intent_type, IntentType::Navigate);
    assert_eq!(result.slots.get("url").map(String::as_str), Some("https://reddit.com"));
    assert_eq!(result.raw, "  GO TO Reddit  ");
}

#[test]
fn parse_confidences_follow_pattern_priority() {
    assert_eq!(parse_intent("mute").unwrap().confidence, 95);
    assert_eq!(parse_intent("new tab").unwrap().confidence, 90);
    assert_eq!(parse_intent("go to reddit").unwrap().confidence, 85);
    assert_eq!(parse_intent("write a poem").unwrap().confidence, 80);
    let fallback = parse_intent("hello there").unwrap();
    assert_eq!(fallback.intent_type, IntentType::Query);
    assert_eq!(fallback.confidence, 30);
}

#[test]
fn parse_first_matching_pattern_wins() {
    // "mute" (System) and "search" (Search) both occur: System comes first.
    let result = parse_intent("search for how to mute").unwrap();
    assert_eq!(result.intent_type, IntentType::System);
    assert_eq!(result.slots.get("action").map(String::as_str), Some("search for how to mute"));
}

#[test]
fn parse_query_keeps_raw_input() {
    let result = parse_intent("Translate This").unwrap();
    assert_eq!(result.intent_type, IntentType::Query);
    assert_eq!(result.slots.get("query").map(String::as_str), Some("Translate This"));
}

#[test]
fn parse_scrape_and_compose_slots() {
    let scrape = parse_intent("get the bitcoin price").unwrap();
    assert_eq!(scrape.slots.get("target").map(String::as_str), Some("bitcoin price"));
    let compose = parse_intent("draft a reply to the customer").unwrap();
    assert_eq!(compose.slots.get("content").map(String::as_str), Some("a reply to the customer"));
    let search = parse_intent("search for rust tutorials").unwrap();
    assert_eq!(search.slots.get("query").map(String::as_str), Some("rust tutorials"));
}

#[test]
fn parse_lowered_takes_the_lowercase_text() {
    let result = parse_lowered("open github", "Open GitHub").unwrap();
    assert_eq!(result.intent_type, IntentType::Navigate);
    assert_eq!(result.slots.get("url").map(String::as_str), Some("https://github.com"));
    assert_eq!(result.raw, "Open GitHub");
    assert!(parse_lowered("   ", "   ").is_err());
}

#[test]
fn extract_url_or_site_cases() {
    assert_eq!(extract_url_or_site("navigate to github.com").as_deref(), Some("https://github.com"));
    assert_eq!(extract_url_or_site("visit www.rust-lang.org now").as_deref(), Some("www.rust-lang.org"));
    assert_eq!(extract_url_or_site("go to a.b").as_deref(), None);
    assert_eq!(extract_url_or_site("go to hacker news").as_deref(), Some("https://news.ycombinator.com"));
    assert_eq!(extract_url_or_site("end with dot.").as_deref(), None);
    assert_eq!(extract_url_or_site("nothing here").as_deref(), None);
}

#[test]
fn extract_after_keywords_cases() {
    let kws = ["search for", "search"];
    assert_eq!(extract_after_keywords("please search for  cats  ", &kws).as_deref(), Some("cats"));
    assert_eq!(extract_after_keywords("search for", &kws).as_deref(), Some("for"));
    assert_eq!(extract_after_keywords("search   ", &kws).as_deref(), None);
    assert_eq!(extract_after_keywords("nothing", &kws).as_deref(), None);
    // The first keyword leaves nothing after it, so the second is tried.
    assert_eq!(extract_after_keywords("search dogs then search for", &kws).as_deref(), Some("dogs then search for"));
}
