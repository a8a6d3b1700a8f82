use cntrl_browser::background::{
    action_result, initial_url, tab_open_error, ActionOutcome, BackgroundAction, BackgroundError,
    BackgroundTask,
};

#[test]
fn initial_url_is_first_navigation_target() {
    let actions = vec![
        BackgroundAction::Navigate("https://example.com".to_string()),
        BackgroundAction::EvaluateJS("document.title".to_string()),
    ];
    assert_eq!(initial_url(&actions), "https://example.com");
}

#[test]
fn initial_url_defaults_to_blank() {
    assert_eq!(initial_url(&Vec::new()), "about:blank");
    let actions = vec![
        BackgroundAction::EvaluateJS("1 + 1".to_string()),
        BackgroundAction::Navigate("https://example.com".to_string()),
    ];
    assert_eq!(initial_url(&actions), "about:blank");
}

#[test]
fn navigation_keeps_last_result() {
    assert_eq!(action_result(ActionOutcome::Navigated(Ok(())), None), Ok(None));
    assert_eq!(
        action_result(ActionOutcome::Navigated(Ok(())), Some("Executed".to_string())),
        Ok(Some("Executed".to_string()))
    );
}

#[test]
fn script_records_executed() {
    assert_eq!(
        action_result(ActionOutcome::Evaluated(Some(Ok(()))), None),
        Ok(Some("Executed".to_string()))
    );
}

#[test]
fn each_failure_has_its_error() {
    assert_eq!(
        action_result(ActionOutcome::Navigated(Err("bad url".to_string())), None),
        Err(BackgroundError::NavigationFailed("bad url".to_string()))
    );
    assert_eq!(
        action_result(ActionOutcome::Evaluated(Some(Err("syntax".to_string()))), None),
        Err(BackgroundError::JavaScriptFailed("syntax".to_string()))
    );
    assert_eq!(
        action_result(ActionOutcome::Evaluated(None), Some("x".to_string())),
        Err(BackgroundError::InternalError("Webview not found".to_string()))
    );
    assert_eq!(
        tab_open_error("no window".to_string()),
        BackgroundError::BrowserCreationFailed("no window".to_string())
    );
}

#[test]
fn spawned_task_navigates_then_runs_script() {
    let task = BackgroundTask::spawn("https://example.com".to_string(), Some("1 + 1".to_string()), 5000);
    assert_eq!(task.timeout_ms, 5000);
    assert_eq!(task.actions.len(), 2);
    assert!(matches!(&task.actions[0], BackgroundAction::Navigate(u) if u == "https://example.com"));
    assert!(matches!(&task.actions[1], BackgroundAction::EvaluateJS(s) if s == "1 + 1"));
    assert_eq!(initial_url(&task.actions), "https://example.com");

    let plain = BackgroundTask::spawn("https://example.org".to_string(), None, 100);
    assert_eq!(plain.actions.len(), 1);
    assert!(matches!(&plain.actions[0], BackgroundAction::Navigate(u) if u == "https://example.org"));
    assert_ne!(plain.id, task.id);
}
