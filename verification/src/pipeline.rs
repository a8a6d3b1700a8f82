//! The intent pipeline's decisions around a command: past tasks recalled for
//! it are prepended as numbered context lines before it goes to the AI, the
//! task is recorded under its intent type's name and final status, and a
//! successful task with a URL records that URL as a site habit.

use vstd::prelude::*;
use vstd::string::*;
use crate::error::{is_ai_error, CntrlError};
use crate::intent::{parse_intent, parsed, IntentResult, IntentType};
use crate::planner::{plan, plan_steps, steps_view, Step};
use crate::text::{concat_str, decimal, decimal_string, lowercase, opt_view, trim};

verus! {

/// A past task recalled as context for a new command.
#[derive(Debug, Clone)]
pub struct ContextEntry {
    /// The intent type the task was classified as.
    pub intent_type: String,
    /// The command text of the task.
    pub intent_raw: String,
    /// The task's result, if it recorded one.
    pub result: Option<String>,
}

/// The context line for the entry at position `i` (counted from 0): its
/// number, intent type, quoted command and result.
pub open spec fn context_line(i: nat, e: ContextEntry) -> Seq<char> {
    let result = match opt_view(e.result) {
        Some(r) => r,
        None => "(no result)"@,
    };
    decimal(i + 1) + ". ["@ + e.intent_type@ + "] \""@ + e.intent_raw@ + "\" → "@ + result
}

/// The context lines of the first `n` entries, one per line.
pub open spec fn context_lines(entries: Seq<ContextEntry>, n: nat) -> Seq<char>
    decreases n,
{
    if n == 0 {
        seq![]
    } else if n == 1 {
        context_line(0, entries[0])
    } else {
        context_lines(entries, (n - 1) as nat) + "\n"@ + context_line((n - 1) as nat, entries[n - 1])
    }
}

/// The prompt sent for `input`: the input itself when nothing was recalled,
/// otherwise the recalled context block followed by the current request.
pub open spec fn decorated(input: Seq<char>, entries: Seq<ContextEntry>) -> Seq<char> {
    if entries.len() == 0 {
        input
    } else {
        "Relevant context from past tasks:\n"@ + context_lines(entries, entries.len()) + "\n\nCurrent request: "@
            + input
    }
}

fn context_line_exec(i: usize, e: &ContextEntry) -> (r: String)
    requires
        i < usize::MAX,
    ensures
        r@ == context_line(i as nat, *e),
{
    let number = decimal_string(i + 1);
    let a = concat_str(number.as_str(), ". [");
    let b = concat_str(a.as_str(), e.intent_type.as_str());
    let c = concat_str(b.as_str(), "] \"");
    let d = concat_str(c.as_str(), e.intent_raw.as_str());
    let f = concat_str(d.as_str(), "\" → ");
    let r = match &e.result {
        Some(result) => concat_str(f.as_str(), result.as_str()),
        None => concat_str(f.as_str(), "(no result)"),
    };
    r
}

/// The prompt sent for `input` given the recalled past tasks.
pub fn decorate_prompt(input: &str, entries: &Vec<ContextEntry>) -> (r: String)
    ensures
        r@ == decorated(input@, entries@),
{
    let n = entries.len();
    if n == 0 {
        return input.to_owned();
    }
    let mut block = context_line_exec(0, &entries[0]);
    let mut i: usize = 1;
    while i < n
        invariant
            1 <= i <= n,
            n == entries@.len(),
            block@ == context_lines(entries@, i as nat),
        decreases n - i,
    {
        let line = context_line_exec(i, &entries[i]);
        let with_break = concat_str(block.as_str(), "\n");
        block = concat_str(with_break.as_str(), line.as_str());
        i = i + 1;
    }
    let head = concat_str("Relevant context from past tasks:\n", block.as_str());
    let with_request = concat_str(head.as_str(), "\n\nCurrent request: ");
    concat_str(with_request.as_str(), input)
}

/// The status text a task is recorded with once it has run.
pub fn task_status(succeeded: bool) -> (r: &'static str)
    ensures
        r@ == (if succeeded {
            "done"@
        } else {
            "failed"@
        }),
{
    if succeeded {
        "done"
    } else {
        "failed"
    }
}

/// The name an intent type is recorded under in the task history.
pub open spec fn intent_type_text(t: IntentType) -> Seq<char> {
    match t {
        IntentType::Navigate => "Navigate"@,
        IntentType::Search => "Search"@,
        IntentType::Scrape => "Scrape"@,
        IntentType::Compose => "Compose"@,
        IntentType::System => "System"@,
        IntentType::Macro => "Macro"@,
        IntentType::Query => "Query"@,
    }
}

/// The name an intent type is recorded under in the task history.
pub fn intent_type_name(t: IntentType) -> (r: &'static str)
    ensures
        r@ == intent_type_text(t),
{
    match t {
        IntentType::Navigate => "Navigate",
        IntentType::Search => "Search",
        IntentType::Scrape => "Scrape",
        IntentType::Compose => "Compose",
        IntentType::System => "System",
        IntentType::Macro => "Macro",
        IntentType::Query => "Query",
    }
}

/// The service to record as a site habit once a task has run: the intent's
/// `url` slot, when the task succeeded and the intent has one.
pub fn habit_service(succeeded: bool, intent: &IntentResult) -> (r: Option<String>)
    ensures
        r matches Some(url) <==> succeeded && intent.slots@.contains_key("url"@),
        r matches Some(url) ==> url@ == intent.slots@["url"@],
{
    if succeeded {
        match intent.slots.get("url") {
            Some(url) => Some(url.clone()),
            None => None,
        }
    } else {
        None
    }
}

/// A command made ready to run: its intent, the prompt that goes to the AI,
/// and the planned steps.
#[derive(Debug, Clone)]
pub struct PreparedTask {
    /// The intent, parsed from the command itself.
    pub intent: IntentResult,
    /// The command decorated with the recalled context.
    pub prompt: String,
    /// The steps planned for the intent.
    pub steps: Vec<Step>,
}

/// `t` is the command `input` made ready with the recalled `context`: the
/// intent is the parse of the command alone, the prompt is the command
/// decorated with the context, and the steps are the intent's plan.
pub open spec fn prepared(input: Seq<char>, context: Seq<ContextEntry>, t: PreparedTask) -> bool {
    &&& parsed(trim(lowercase(input)), input, t.intent)
    &&& t.prompt@ == decorated(input, context)
    &&& steps_view(t.steps@) == plan_steps(t.intent.intent_type, t.intent.slots@, t.intent.raw@)
}

/// Makes the command `input` ready to run with the past tasks recalled for
/// it: the command is classified from its own text (the recalled context
/// only decorates the prompt sent to the AI), and its steps are planned. An
/// input that is empty once trimmed is refused, as `parse_intent` refuses
/// it.
pub fn prepare_task(input: &str, context: &Vec<ContextEntry>) -> (r: Result<PreparedTask, CntrlError>)
    ensures
        r is Err <==> trim(lowercase(input@)).len() == 0,
        match r {
            Ok(t) => prepared(input@, context@, t),
            Err(e) => is_ai_error(e, "Empty input"@),
        },
{
    let intent = match parse_intent(input) {
        Ok(intent) => intent,
        Err(e) => {
            return Err(e);
        },
    };
    let prompt = decorate_prompt(input, context);
    let steps = match plan(&intent) {
        Ok(steps) => steps,
        Err(e) => {
            return Err(e);
        },
    };
    Ok(PreparedTask { intent, prompt, steps })
}

/// Recalled context never changes how a command is classified or planned:
/// two preparations of one command, whatever context each recalled, carry
/// the same intent type, confidence, slots and steps. Without context the
/// prompt is the command itself; with context it ends with the command.
pub proof fn lemma_context_never_changes_classification(
    input: Seq<char>,
    c1: Seq<ContextEntry>,
    c2: Seq<ContextEntry>,
    t1: PreparedTask,
    t2: PreparedTask,
)
    requires
        prepared(input, c1, t1),
        prepared(input, c2, t2),
    ensures
        t1.intent.intent_type == t2.intent.intent_type,
        t1.intent.confidence == t2.intent.confidence,
        t1.intent.slots@ == t2.intent.slots@,
        steps_view(t1.steps@) == steps_view(t2.steps@),
        c1.len() == 0 ==> t1.prompt@ == input,
        c1.len() > 0 ==> t1.prompt@.len() >= input.len()
            && t1.prompt@.subrange(t1.prompt@.len() - input.len(), t1.prompt@.len() as int) == input,
{
    if c1.len() > 0 {
        let head = "Relevant context from past tasks:\n"@ + context_lines(c1, c1.len()) + "\n\nCurrent request: "@;
        assert(t1.prompt@ == head + input);
        assert((head + input).subrange(head.len() as int, (head + input).len() as int) =~= input);
    }
}

} // verus!
