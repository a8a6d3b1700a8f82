use cntrl_browser::intent::parse_intent;
use cntrl_browser::planner::{plan, steps_for_scrape, steps_for_search, steps_for_system, Step};

#[test]
fn plan_navigate_produces_steps() {
    let intent = parse_intent("go to reddit").expect("should parse");
    let steps = plan(&intent).expect("should plan");
    assert!(!steps.is_empty());
    assert!(matches!(steps[0], Step::NavigateTo(_)));
}

#[test]
fn plan_search_produces_steps() {
    let intent = parse_intent("search for rust tutorials").expect("should parse");
    let steps = plan(&intent).expect("should plan");
    assert!(!steps.is_empty());
    assert!(matches!(steps[0], Step::NavigateTo(_)));
}

#[test]
fn plan_scrape_bitcoin() {
    let intent = parse_intent("get the bitcoin price").expect("should parse");
    let steps = plan(&intent).expect("should plan");
    assert!(!steps.is_empty());
    if let Step::NavigateTo(ref url) = steps[0] {
        assert!(url.contains("coingecko"), "expected coingecko URL, got {url}");
    } else {
        panic!("expected NavigateTo step");
    }
}

#[test]
fn plan_system_mute() {
    let intent = parse_intent("mute").expect("should parse");
    let steps = plan(&intent).expect("should plan");
    assert!(matches!(steps[0], Step::RunScript(_)));
}

#[test]
fn plan_query_summarize() {
    let intent = parse_intent("summarize this page").expect("should parse");
    let steps = plan(&intent).expect("should plan");
    assert!(matches!(steps[0], Step::ReadPage));
}

#[test]
fn plan_all_intent_types_produce_steps() {
    let commands = [
        "go to youtube",
        "search for recipes",
        "get the bitcoin price",
        "write an email to boss",
        "mute",
        "record this",
        "summarize this page",
    ];

    for cmd in &commands {
        let intent = parse_intent(cmd).expect("should parse");
        let steps = plan(&intent).expect("should plan");
        assert!(!steps.is_empty(), "empty steps for: {cmd}");
    }
}

fn report(step: &Step) -> String {
    match step {
        Step::ReportResult(m) => m.clone(),
        _ => panic!("expected a report"),
    }
}

#[test]
fn plan_navigate_exact_steps() {
    let intent = parse_intent("go to reddit").unwrap();
    let steps = plan(&intent).unwrap();
    assert_eq!(steps.len(), 3);
    assert!(matches!(&steps[0], Step::NavigateTo(u) if u == "https://reddit.com"));
    assert!(matches!(steps[1], Step::WaitFor(1500)));
    assert_eq!(report(&steps[2]), "Navigated to https://reddit.com");
}

#[test]
fn plan_navigate_without_site_opens_google() {
    let intent = parse_intent("go to").unwrap();
    let steps = plan(&intent).unwrap();
    assert!(matches!(&steps[0], Step::NavigateTo(u) if u == "https://google.com"));
}

#[test]
fn plan_search_percent_encodes_query() {
    let steps = steps_for_search("lo-fi & chill~".to_string());
    assert!(matches!(&steps[0], Step::NavigateTo(u) if u == "https://www.google.com/search?q=lo-fi%20%26%20chill~"));
    assert!(matches!(steps[1], Step::WaitFor(2000)));
    assert_eq!(report(&steps[2]), "Searched for: lo-fi & chill~");
    let steps = steps_for_search("café".to_string());
    assert!(matches!(&steps[0], Step::NavigateTo(u) if u == "https://www.google.com/search?q=caf%C3%A9"));
}

#[test]
fn plan_scrape_variants() {
    let eth = steps_for_scrape("ETH price", "eth price");
    assert!(matches!(&eth[0], Step::NavigateTo(u) if u.contains("ids=ethereum")));
    assert_eq!(report(&eth[3]), "Fetched Ethereum price");
    let other = steps_for_scrape("weather today", "weather today");
    assert!(matches!(&other[0], Step::NavigateTo(u) if u == "https://www.google.com/search?q=weather%20today"));
    assert!(matches!(other[2], Step::ReadPage));
    assert_eq!(report(&other[3]), "Scraped data for: weather today");
    // Lowercasing happens before the crypto test.
    let intent = parse_intent("get the BTC price").unwrap();
    let steps = plan(&intent).unwrap();
    assert!(matches!(&steps[0], Step::NavigateTo(u) if u.contains("ids=bitcoin")));
}

#[test]
fn plan_system_variants() {
    assert_eq!(report(&steps_for_system("unmute")[1]), "Unmuted all media");
    assert_eq!(report(&steps_for_system("take a screenshot")[0]), "Screenshot saved");
    assert_eq!(report(&steps_for_system("close all tabs")[0]), "Closed all tabs");
    assert_eq!(report(&steps_for_system("close tab")[0]), "Closed current tab");
    assert_eq!(report(&steps_for_system("new tab")[0]), "System action: new tab");
}

#[test]
fn plan_compose_macro_query_reports() {
    let compose = plan(&parse_intent("write an email to boss").unwrap()).unwrap();
    assert_eq!(compose.len(), 1);
    assert_eq!(report(&compose[0]), "Composing: an email to boss");
    let macro_steps = plan(&parse_intent("Record this").unwrap()).unwrap();
    assert_eq!(report(&macro_steps[0]), "Macro: Record this");
    let query = plan(&parse_intent("Explain DNS").unwrap()).unwrap();
    assert_eq!(report(&query[0]), "Query: Explain DNS");
}
