//! Background (headless) tasks: the actions a task runs in its own hidden
//! tab, and the decisions taken between them. Opening the tab, navigating,
//! evaluating scripts and waiting are done by the application, which hands
//! each outcome back to [`action_result`].

use vstd::prelude::*;
use crate::ids::new_uuid;

verus! {

/// Why a background task failed.
#[derive(Debug, Clone, PartialEq, Eq)]
pub enum BackgroundError {
    /// Navigation failed.
    NavigationFailed(String),
    /// JavaScript execution failed.
    JavaScriptFailed(String),
    /// The task timed out.
    Timeout,
    /// A worker could not be created.
    WorkerCreationFailed(String),
    /// A browser tab could not be created.
    BrowserCreationFailed(String),
    /// Any other internal error.
    InternalError(String),
}

/// One action of a background task.
#[derive(Debug, Clone)]
pub enum BackgroundAction {
    /// Load a URL in the task's tab, then wait for it to settle.
    Navigate(String),
    /// Evaluate a script in the task's tab.
    EvaluateJS(String),
}

/// A background task: its identifier (also that of its tab), its actions
/// and the time it may take, in milliseconds.
#[derive(Debug, Clone)]
pub struct BackgroundTask {
    /// The task's identifier.
    pub id: uuid::Uuid,
    /// The actions, run in order.
    pub actions: Vec<BackgroundAction>,
    /// The time limit in milliseconds.
    pub timeout_ms: u64,
}

/// The actions of a task spawned for `url` and an optional `script`: load
/// the URL, then evaluate the script when there is one.
pub open spec fn spawned_actions(url: String, script: Option<String>) -> Seq<BackgroundAction> {
    match script {
        Some(s) => seq![BackgroundAction::Navigate(url), BackgroundAction::EvaluateJS(s)],
        None => seq![BackgroundAction::Navigate(url)],
    }
}

impl BackgroundTask {
    /// A new task with a fresh random identifier that loads `url`, then
    /// evaluates `script` when one is given, within `timeout_ms`.
    pub fn spawn(url: String, script: Option<String>, timeout_ms: u64) -> (r: Self)
        ensures
            r.actions@ == spawned_actions(url, script),
            r.timeout_ms == timeout_ms,
    {
        let id = new_uuid();
        let mut actions: Vec<BackgroundAction> = Vec::new();
        actions.push(BackgroundAction::Navigate(url));
        match script {
            Some(s) => actions.push(BackgroundAction::EvaluateJS(s)),
            None => {},
        }
        BackgroundTask { id, actions, timeout_ms }
    }
}

/// The URL the task's tab is opened at: the target of the first action when
/// that action navigates, `about:blank` otherwise.
pub open spec fn initial_url_of(actions: Seq<BackgroundAction>) -> Seq<char> {
    if actions.len() > 0 && actions[0] is Navigate {
        actions[0]->Navigate_0@
    } else {
        "about:blank"@
    }
}

/// The URL to open the task's tab at.
pub fn initial_url(actions: &Vec<BackgroundAction>) -> (r: String)
    ensures
        r@ == initial_url_of(actions@),
{
    if actions.len() > 0 {
        match &actions[0] {
            BackgroundAction::Navigate(url) => {
                return url.clone();
            },
            BackgroundAction::EvaluateJS(_) => {},
        }
    }
    "about:blank".to_owned()
}

/// The error for a tab that could not be opened, with the browser's message.
pub fn tab_open_error(message: String) -> (r: BackgroundError)
    ensures
        r == BackgroundError::BrowserCreationFailed(message),
{
    BackgroundError::BrowserCreationFailed(message)
}

/// What running one action gave: a navigation's outcome (with the browser's
/// message on failure), or a script evaluation's outcome, `None` when the
/// task's tab could not be found.
#[derive(Debug)]
pub enum ActionOutcome {
    /// The navigation succeeded, or failed with a message.
    Navigated(Result<(), String>),
    /// The tab was not found, or the evaluation succeeded or failed with a
    /// message.
    Evaluated(Option<Result<(), String>>),
}

/// The text recorded as the result of a script that ran.
pub open spec fn executed_text() -> Seq<char> {
    "Executed"@
}

/// The message of the error for a task whose tab disappeared.
pub open spec fn missing_tab_text() -> Seq<char> {
    "Webview not found"@
}

/// The state after one action: `last` is the result recorded so far. A
/// navigation keeps it, a script that ran records "Executed", and each
/// failure ends the task with its error.
pub open spec fn action_answer(outcome: ActionOutcome, last: Option<String>, r: Result<Option<String>, BackgroundError>) -> bool {
    match outcome {
        ActionOutcome::Navigated(Ok(())) => r == Ok::<Option<String>, BackgroundError>(last),
        ActionOutcome::Navigated(Err(m)) => r == Err::<Option<String>, BackgroundError>(BackgroundError::NavigationFailed(m)),
        ActionOutcome::Evaluated(None) => r matches Err(BackgroundError::InternalError(m)) && m@ == missing_tab_text(),
        ActionOutcome::Evaluated(Some(Err(m))) => r == Err::<Option<String>, BackgroundError>(BackgroundError::JavaScriptFailed(m)),
        ActionOutcome::Evaluated(Some(Ok(()))) => r matches Ok(Some(t)) && t@ == executed_text(),
    }
}

/// The task's recorded result after an action with `outcome`, or the error
/// that ends the task.
pub fn action_result(outcome: ActionOutcome, last: Option<String>) -> (r: Result<Option<String>, BackgroundError>)
    ensures
        action_answer(outcome, last, r),
{
    match outcome {
        ActionOutcome::Navigated(Ok(())) => Ok(last),
        ActionOutcome::Navigated(Err(m)) => Err(BackgroundError::NavigationFailed(m)),
        ActionOutcome::Evaluated(None) => Err(BackgroundError::InternalError("Webview not found".to_owned())),
        ActionOutcome::Evaluated(Some(Err(m))) => Err(BackgroundError::JavaScriptFailed(m)),
        ActionOutcome::Evaluated(Some(Ok(()))) => Ok(Some("Executed".to_owned())),
    }
}

/// A spawned task's tab is opened at the URL it was spawned for.
pub proof fn lemma_spawned_task_opens_at_url(url: String, script: Option<String>)
    ensures
        initial_url_of(spawned_actions(url, script)) == url@,
{
}

} // verus!
