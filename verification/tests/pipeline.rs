use cntrl_browser::intent::{parse_intent, IntentType};
use cntrl_browser::text::decimal_string;
use cntrl_browser::pipeline::{
    decorate_prompt, habit_service, prepare_task, intent_type_name, task_status, ContextEntry,
};

fn entry(kind: &str, raw: &str, result: Option<&str>) -> ContextEntry {
    ContextEntry {
        intent_type: kind.to_string(),
        intent_raw: raw.to_string(),
        result: result.map(|r| r.to_string()),
    }
}

#[test]
fn decorate_prompt_without_context_is_the_input() {
    assert_eq!(decorate_prompt("open github", &Vec::new()), "open github");
}

#[test]
fn decorate_prompt_numbers_recalled_tasks() {
    let entries = vec![
        entry("Search", "check the weather forecast", Some("weather is sunny")),
        entry("Navigate", "open github", None),
    ];
    assert_eq!(
        decorate_prompt("what about tomorrow", &entries),
        "Relevant context from past tasks:\n\
         1. [Search] \"check the weather forecast\" → weather is sunny\n\
         2. [Navigate] \"open github\" → (no result)\n\n\
         Current request: what about tomorrow"
    );
}

#[test]
fn decimal_string_writes_numbers() {
    assert_eq!(decimal_string(0), "0");
    assert_eq!(decimal_string(7), "7");
    assert_eq!(decimal_string(10), "10");
    assert_eq!(decimal_string(12345), "12345");
    assert_eq!(decimal_string(usize::MAX), usize::MAX.to_string());
}

#[test]
fn task_status_text() {
    assert_eq!(task_status(true), "done");
    assert_eq!(task_status(false), "failed");
}

#[test]
fn intent_type_names() {
    assert_eq!(intent_type_name(IntentType::Navigate), "Navigate");
    assert_eq!(intent_type_name(IntentType::Search), "Search");
    assert_eq!(intent_type_name(IntentType::Scrape), "Scrape");
    assert_eq!(intent_type_name(IntentType::Compose), "Compose");
    assert_eq!(intent_type_name(IntentType::System), "System");
    assert_eq!(intent_type_name(IntentType::Macro), "Macro");
    assert_eq!(intent_type_name(IntentType::Query), "Query");
    assert_eq!(intent_type_name(IntentType::Query), format!("{:?}", IntentType::Query));
}

#[test]
fn habit_recorded_only_for_successful_tasks_with_url() {
    let nav = parse_intent("go to github").unwrap();
    assert_eq!(habit_service(true, &nav), Some("https://github.com".to_string()));
    assert_eq!(habit_service(false, &nav), None);
    let search = parse_intent("search for rust tutorials").unwrap();
    assert_eq!(habit_service(true, &search), None);
}

#[test]
fn prepared_task_classifies_the_command_alone() {
    let context = vec![ContextEntry {
        intent_type: "Search".to_string(),
        intent_raw: "search for weather".to_string(),
        result: None,
    }];
    let with = prepare_task("open github", &context).unwrap();
    let without = prepare_task("open github", &Vec::new()).unwrap();
    assert_eq!(with.intent.intent_type, IntentType::Navigate);
    assert_eq!(with.intent.intent_type, without.intent.intent_type);
    assert_eq!(with.intent.slots.get("url"), without.intent.slots.get("url"));
    assert_eq!(with.steps.len(), without.steps.len());
    assert_eq!(without.prompt, "open github");
    assert!(with.prompt.ends_with("\n\nCurrent request: open github"));
    assert!(prepare_task("   ", &context).is_err());
}
