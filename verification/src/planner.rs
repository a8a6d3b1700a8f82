//! Task planner: decomposes a parsed intent into the list of steps that the
//! executor runs. Each intent type maps to a step template into which the
//! intent's slots are interpolated.

use vstd::prelude::*;
use vstd::string::*;
use vstd::utf8::encode_utf8;
use crate::error::CntrlError;
use crate::intent::{parsed, url_or_site, IntentResult, IntentType};
use crate::text::{chars_of, concat_str, contains, contains_str, lowercase, to_lowercase};

verus! {

// ── Step definitions ───────────────────────────────────────────────────

/// A single executable step in a task plan.
#[derive(Debug, Clone)]
pub enum Step {
    /// Navigate the active tab to the given URL.
    NavigateTo(String),
    /// Click an element matching the CSS selector.
    ClickElement(String),
    /// Type text into an element matching the CSS selector.
    TypeText(String, String),
    /// Read the current page's DOM content.
    ReadPage,
    /// Execute a JavaScript snippet in the active tab.
    RunScript(String),
    /// Wait for the given number of milliseconds.
    WaitFor(u64),
    /// Report a result message back to the user.
    ReportResult(String),
}

/// A step, with its texts as character sequences.
pub ghost enum StepView {
    NavigateTo(Seq<char>),
    ClickElement(Seq<char>),
    TypeText(Seq<char>, Seq<char>),
    ReadPage,
    RunScript(Seq<char>),
    WaitFor(u64),
    ReportResult(Seq<char>),
}

impl View for Step {
    type V = StepView;

    open spec fn view(&self) -> StepView {
        match self {
            Step::NavigateTo(u) => StepView::NavigateTo(u@),
            Step::ClickElement(s) => StepView::ClickElement(s@),
            Step::TypeText(s, t) => StepView::TypeText(s@, t@),
            Step::ReadPage => StepView::ReadPage,
            Step::RunScript(s) => StepView::RunScript(s@),
            Step::WaitFor(ms) => StepView::WaitFor(*ms),
            Step::ReportResult(m) => StepView::ReportResult(m@),
        }
    }
}

/// The views of a list of steps.
pub open spec fn steps_view(v: Seq<Step>) -> Seq<StepView> {
    v.map_values(|s: Step| s@)
}

/// The status of a task as it moves through the execution pipeline.
#[derive(Debug, Clone, Copy, PartialEq, Eq, Structural)]
pub enum TaskStatus {
    /// Waiting to be executed.
    Queued,
    /// Currently being executed.
    Running,
    /// Completed successfully.
    Done,
    /// Failed with an error.
    Failed,
    /// Cancelled by the user.
    Cancelled,
}

/// The result of executing a complete task.
#[derive(Debug, Clone)]
pub struct TaskResult {
    /// Unique task identifier.
    pub task_id: uuid::Uuid,
    /// Final status of the task.
    pub status: TaskStatus,
    /// Steps that were planned.
    pub steps: Vec<Step>,
    /// The step index that failed (if any).
    pub failed_at: Option<usize>,
    /// Human-readable result or error message.
    pub message: String,
    /// Data returned by the task (e.g., scraped value, summary text).
    pub data: Option<String>,
}

/// An entry in the task history log.
#[derive(Debug, Clone)]
pub struct TaskHistoryEntry {
    /// Unique task identifier.
    pub task_id: uuid::Uuid,
    /// The command text that started the task.
    pub raw_input: String,
    /// Classified intent type.
    pub intent_type: IntentType,
    /// Final status.
    pub status: TaskStatus,
    /// Result message.
    pub message: String,
    /// ISO 8601 timestamp.
    pub timestamp: String,
}

// ── URL encoding ───────────────────────────────────────────────────────

/// The bytes that percent-encoding leaves as they are: ASCII alphanumerics
/// and `-`, `.`, `_`, `~`.
pub open spec fn url_safe_byte(b: u8) -> bool {
    (48 <= b <= 57) || (65 <= b <= 90) || (97 <= b <= 122) || b == 45 || b == 46 || b == 95
        || b == 126
}

/// The uppercase hexadecimal digit for a value below 16.
pub open spec fn hex_digit(d: u8) -> char {
    if d < 10 {
        (48 + d) as char
    } else {
        (55 + d) as char
    }
}

/// Percent-encoding of a byte string: safe bytes stand for themselves, every
/// other byte becomes `%` followed by its two uppercase hex digits.
pub open spec fn percent_encode(bytes: Seq<u8>) -> Seq<char>
    decreases bytes.len(),
{
    if bytes.len() == 0 {
        seq![]
    } else {
        let b = bytes[0];
        let head = if url_safe_byte(b) {
            seq![b as char]
        } else {
            seq!['%', hex_digit(b / 16), hex_digit(b % 16)]
        };
        head + percent_encode(bytes.drop_first())
    }
}

/// Calls `urlencoding::encode`, which percent-encodes every byte of the UTF-8
/// encoding of `s` except ASCII alphanumerics and `-`, `_`, `.`, `~`, with
/// uppercase hex digits; the contract states exactly that.
#[verifier::external_body]
fn url_encode(s: &str) -> (r: String)
    ensures
        r@ == percent_encode(encode_utf8(s@)),
{
    urlencoding::encode(s).into_owned()
}

// ── Plan templates ─────────────────────────────────────────────────────

/// The value of slot `key`, or `default` when it has none.
pub open spec fn slot_or(slots: Map<Seq<char>, Seq<char>>, key: Seq<char>, default: Seq<char>) -> Seq<char> {
    if slots.contains_key(key) {
        slots[key]
    } else {
        default
    }
}

/// Google search URL for a query.
pub open spec fn search_url(query: Seq<char>) -> Seq<char> {
    "https://www.google.com/search?q="@ + percent_encode(encode_utf8(query))
}

/// Steps that open `url`.
pub open spec fn navigate_steps(url: Seq<char>) -> Seq<StepView> {
    seq![
        StepView::NavigateTo(url),
        StepView::WaitFor(1500),
        StepView::ReportResult("Navigated to "@ + url),
    ]
}

/// Steps that search the web for `query`.
pub open spec fn search_steps(query: Seq<char>) -> Seq<StepView> {
    seq![
        StepView::NavigateTo(search_url(query)),
        StepView::WaitFor(2000),
        StepView::ReportResult("Searched for: "@ + query),
    ]
}

/// Steps that scrape data about `target`, whose lowercase form is `lower`:
/// crypto prices come from CoinGecko, anything else from a web search.
pub open spec fn scrape_steps(target: Seq<char>, lower: Seq<char>) -> Seq<StepView> {
    if contains(lower, "bitcoin"@) || contains(lower, "btc"@) {
        seq![
            StepView::NavigateTo(
                "https://api.coingecko.com/api/v3/simple/price?ids=bitcoin&vs_currencies=usd"@,
            ),
            StepView::WaitFor(2000),
            StepView::ReadPage,
            StepView::ReportResult("Fetched Bitcoin price"@),
        ]
    } else if contains(lower, "ethereum"@) || contains(lower, "eth"@) {
        seq![
            StepView::NavigateTo(
                "https://api.coingecko.com/api/v3/simple/price?ids=ethereum&vs_currencies=usd"@,
            ),
            StepView::WaitFor(2000),
            StepView::ReadPage,
            StepView::ReportResult("Fetched Ethereum price"@),
        ]
    } else {
        seq![
            StepView::NavigateTo(search_url(target)),
            StepView::WaitFor(2000),
            StepView::ReadPage,
            StepView::ReportResult("Scraped data for: "@ + target),
        ]
    }
}

/// Steps that compose `content`.
pub open spec fn compose_steps(content: Seq<char>) -> Seq<StepView> {
    seq![StepView::ReportResult("Composing: "@ + content)]
}

/// Script that mutes every audio and video element.
pub open spec fn mute_script() -> Seq<char> {
    "document.querySelectorAll('video, audio').forEach(el => el.muted = true)"@
}

/// Script that unmutes every audio and video element.
pub open spec fn unmute_script() -> Seq<char> {
    "document.querySelectorAll('video, audio').forEach(el => el.muted = false)"@
}

/// Steps for the system command `action`.
pub open spec fn system_steps(action: Seq<char>) -> Seq<StepView> {
    if contains(action, "mute"@) && !contains(action, "unmute"@) {
        seq![StepView::RunScript(mute_script()), StepView::ReportResult("Muted all media"@)]
    } else if contains(action, "unmute"@) {
        seq![StepView::RunScript(unmute_script()), StepView::ReportResult("Unmuted all media"@)]
    } else if contains(action, "screenshot"@) {
        seq![StepView::ReportResult("Screenshot saved"@)]
    } else if contains(action, "close all"@) {
        seq![StepView::ReportResult("Closed all tabs"@)]
    } else if contains(action, "close tab"@) {
        seq![StepView::ReportResult("Closed current tab"@)]
    } else {
        seq![StepView::ReportResult("System action: "@ + action)]
    }
}

/// Steps for a macro command whose raw text is `raw`.
pub open spec fn macro_steps(raw: Seq<char>) -> Seq<StepView> {
    seq![StepView::ReportResult("Macro: "@ + raw)]
}

/// Steps for a query whose raw text is `raw` and lowercase text is `lower`.
pub open spec fn query_steps(raw: Seq<char>, lower: Seq<char>) -> Seq<StepView> {
    if contains(lower, "summarize"@) {
        seq![StepView::ReadPage, StepView::ReportResult("Page summarized"@)]
    } else {
        seq![StepView::ReportResult("Query: "@ + raw)]
    }
}

/// The plan for an intent of type `t` with slots `slots` and raw text `raw`.
pub open spec fn plan_steps(t: IntentType, slots: Map<Seq<char>, Seq<char>>, raw: Seq<char>) -> Seq<StepView> {
    match t {
        IntentType::Navigate => navigate_steps(slot_or(slots, "url"@, "https://google.com"@)),
        IntentType::Search => search_steps(slot_or(slots, "query"@, raw)),
        IntentType::Scrape => {
            let target = slot_or(slots, "target"@, raw);
            scrape_steps(target, lowercase(target))
        },
        IntentType::Compose => compose_steps(slot_or(slots, "content"@, raw)),
        IntentType::System => system_steps(slot_or(slots, "action"@, lowercase(raw))),
        IntentType::Macro => macro_steps(raw),
        IntentType::Query => query_steps(raw, lowercase(raw)),
    }
}

// ── Planner implementation ─────────────────────────────────────────────

/// The value of slot `key` of the intent, or `default` when it has none.
fn slot_or_exec(intent: &IntentResult, key: &str, default: String) -> (r: String)
    ensures
        r@ == slot_or(intent.slots@, key@, default@),
{
    match intent.slots.get(key) {
        Some(v) => v.clone(),
        None => default,
    }
}

fn search_url_exec(query: &str) -> (r: String)
    ensures
        r@ == search_url(query@),
{
    let encoded = url_encode(query);
    concat_str("https://www.google.com/search?q=", encoded.as_str())
}

/// Steps that open `url`.
pub fn steps_for_navigate(url: String) -> (r: Vec<Step>)
    ensures
        steps_view(r@) == navigate_steps(url@),
{
    let report = concat_str("Navigated to ", url.as_str());
    let r = vec![Step::NavigateTo(url), Step::WaitFor(1500), Step::ReportResult(report)];
    assert(steps_view(r@) =~= navigate_steps(url@));
    r
}

/// Steps that search the web for `query`.
pub fn steps_for_search(query: String) -> (r: Vec<Step>)
    ensures
        steps_view(r@) == search_steps(query@),
{
    let search = search_url_exec(query.as_str());
    let report = concat_str("Searched for: ", query.as_str());
    let r = vec![Step::NavigateTo(search), Step::WaitFor(2000), Step::ReportResult(report)];
    assert(steps_view(r@) =~= search_steps(query@));
    r
}

/// Steps that scrape data about `target`, given its lowercase form `lower`.
pub fn steps_for_scrape(target: &str, lower: &str) -> (r: Vec<Step>)
    ensures
        steps_view(r@) == scrape_steps(target@, lower@),
{
    let lc = chars_of(lower);
    if contains_str(lc.as_slice(), "bitcoin") || contains_str(lc.as_slice(), "btc") {
        let r = vec![
            Step::NavigateTo(
                "https://api.coingecko.com/api/v3/simple/price?ids=bitcoin&vs_currencies=usd".to_owned(),
            ),
            Step::WaitFor(2000),
            Step::ReadPage,
            Step::ReportResult("Fetched Bitcoin price".to_owned()),
        ];
        assert(steps_view(r@) =~= scrape_steps(target@, lower@));
        return r;
    }
    if contains_str(lc.as_slice(), "ethereum") || contains_str(lc.as_slice(), "eth") {
        let r = vec![
            Step::NavigateTo(
                "https://api.coingecko.com/api/v3/simple/price?ids=ethereum&vs_currencies=usd".to_owned(),
            ),
            Step::WaitFor(2000),
            Step::ReadPage,
            Step::ReportResult("Fetched Ethereum price".to_owned()),
        ];
        assert(steps_view(r@) =~= scrape_steps(target@, lower@));
        return r;
    }
    let r = vec![
        Step::NavigateTo(search_url_exec(target)),
        Step::WaitFor(2000),
        Step::ReadPage,
        Step::ReportResult(concat_str("Scraped data for: ", target)),
    ];
    assert(steps_view(r@) =~= scrape_steps(target@, lower@));
    r
}

/// Steps that compose `content`.
pub fn steps_for_compose(content: &str) -> (r: Vec<Step>)
    ensures
        steps_view(r@) == compose_steps(content@),
{
    let r = vec![Step::ReportResult(concat_str("Composing: ", content))];
    assert(steps_view(r@) =~= compose_steps(content@));
    r
}

/// Steps for the system command `action` (mute, unmute, screenshot, close
/// tabs); any other action is reported back as it is.
pub fn steps_for_system(action: &str) -> (r: Vec<Step>)
    ensures
        steps_view(r@) == system_steps(action@),
{
    let ac = chars_of(action);
    let has_mute = contains_str(ac.as_slice(), "mute");
    let has_unmute = contains_str(ac.as_slice(), "unmute");
    let r = if has_mute && !has_unmute {
        vec![
            Step::RunScript(
                "document.querySelectorAll('video, audio').forEach(el => el.muted = true)".to_owned(),
            ),
            Step::ReportResult("Muted all media".to_owned()),
        ]
    } else if has_unmute {
        vec![
            Step::RunScript(
                "document.querySelectorAll('video, audio').forEach(el => el.muted = false)".to_owned(),
            ),
            Step::ReportResult("Unmuted all media".to_owned()),
        ]
    } else if contains_str(ac.as_slice(), "screenshot") {
        vec![Step::ReportResult("Screenshot saved".to_owned())]
    } else if contains_str(ac.as_slice(), "close all") {
        vec![Step::ReportResult("Closed all tabs".to_owned())]
    } else if contains_str(ac.as_slice(), "close tab") {
        vec![Step::ReportResult("Closed current tab".to_owned())]
    } else {
        vec![Step::ReportResult(concat_str("System action: ", action))]
    };
    assert(steps_view(r@) =~= system_steps(action@));
    r
}

/// Steps for a macro command whose raw text is `raw`.
pub fn steps_for_macro(raw: &str) -> (r: Vec<Step>)
    ensures
        steps_view(r@) == macro_steps(raw@),
{
    let r = vec![Step::ReportResult(concat_str("Macro: ", raw))];
    assert(steps_view(r@) =~= macro_steps(raw@));
    r
}

/// Steps for a query whose raw text is `raw`, given its lowercase form
/// `lower`: a summary reads the page, anything else is reported back.
pub fn steps_for_query(raw: &str, lower: &str) -> (r: Vec<Step>)
    ensures
        steps_view(r@) == query_steps(raw@, lower@),
{
    let lc = chars_of(lower);
    let r = if contains_str(lc.as_slice(), "summarize") {
        vec![Step::ReadPage, Step::ReportResult("Page summarized".to_owned())]
    } else {
        vec![Step::ReportResult(concat_str("Query: ", raw))]
    };
    assert(steps_view(r@) =~= query_steps(raw@, lower@));
    r
}

/// Plan: navigate to a URL.
fn plan_navigate(intent: &IntentResult) -> (r: Result<Vec<Step>, CntrlError>)
    ensures
        r matches Ok(steps) && steps_view(steps@) == plan_steps(IntentType::Navigate, intent.slots@, intent.raw@),
{
    let url = slot_or_exec(intent, "url", "https://google.com".to_owned());
    Ok(steps_for_navigate(url))
}

/// Plan: search the web.
fn plan_search(intent: &IntentResult) -> (r: Result<Vec<Step>, CntrlError>)
    ensures
        r matches Ok(steps) && steps_view(steps@) == plan_steps(IntentType::Search, intent.slots@, intent.raw@),
{
    let query = slot_or_exec(intent, "query", intent.raw.clone());
    Ok(steps_for_search(query))
}

/// Plan: scrape data from a web page.
fn plan_scrape(intent: &IntentResult) -> (r: Result<Vec<Step>, CntrlError>)
    ensures
        r matches Ok(steps) && steps_view(steps@) == plan_steps(IntentType::Scrape, intent.slots@, intent.raw@),
{
    let target = slot_or_exec(intent, "target", intent.raw.clone());
    let lower = to_lowercase(target.as_str());
    Ok(steps_for_scrape(target.as_str(), lower.as_str()))
}

/// Plan: compose text content.
fn plan_compose(intent: &IntentResult) -> (r: Result<Vec<Step>, CntrlError>)
    ensures
        r matches Ok(steps) && steps_view(steps@) == plan_steps(IntentType::Compose, intent.slots@, intent.raw@),
{
    let content = slot_or_exec(intent, "content", intent.raw.clone());
    Ok(steps_for_compose(content.as_str()))
}

/// Plan: system commands (mute, screenshot, close tabs).
fn plan_system(intent: &IntentResult) -> (r: Result<Vec<Step>, CntrlError>)
    ensures
        r matches Ok(steps) && steps_view(steps@) == plan_steps(IntentType::System, intent.slots@, intent.raw@),
{
    let action = match intent.slots.get("action") {
        Some(a) => a.clone(),
        None => to_lowercase(intent.raw.as_str()),
    };
    Ok(steps_for_system(action.as_str()))
}

/// Plan: macro recording / playback.
fn plan_macro(intent: &IntentResult) -> (r: Result<Vec<Step>, CntrlError>)
    ensures
        r matches Ok(steps) && steps_view(steps@) == plan_steps(IntentType::Macro, intent.slots@, intent.raw@),
{
    Ok(steps_for_macro(intent.raw.as_str()))
}

/// Plan: query — summarize, translate, explain.
fn plan_query(intent: &IntentResult) -> (r: Result<Vec<Step>, CntrlError>)
    ensures
        r matches Ok(steps) && steps_view(steps@) == plan_steps(IntentType::Query, intent.slots@, intent.raw@),
{
    let lower = to_lowercase(intent.raw.as_str());
    Ok(steps_for_query(intent.raw.as_str(), lower.as_str()))
}

/// Every intent type's template yields at least one step, whatever the slots
/// and the raw text.
pub proof fn lemma_plan_nonempty(t: IntentType, slots: Map<Seq<char>, Seq<char>>, raw: Seq<char>)
    ensures
        plan_steps(t, slots, raw).len() > 0,
{
}

/// A navigation command that names a URL or a known site is planned as a
/// visit to that URL first.
pub proof fn lemma_navigate_command_visits_named_url(lower: Seq<char>, raw: Seq<char>, res: IntentResult)
    requires
        parsed(lower, raw, res),
        res.intent_type == IntentType::Navigate,
        url_or_site(lower) is Some,
    ensures
        plan_steps(res.intent_type, res.slots@, res.raw@)[0] == StepView::NavigateTo(url_or_site(lower)->0),
{
}

/// Generates the list of steps for the given intent from the template of its
/// type. Every template has at least one step, so planning always succeeds.
pub fn plan(intent: &IntentResult) -> (r: Result<Vec<Step>, CntrlError>)
    ensures
        r matches Ok(steps) && steps_view(steps@) == plan_steps(intent.intent_type, intent.slots@, intent.raw@),
        r matches Ok(steps) && steps@.len() > 0,
{
    let steps = match intent.intent_type {
        IntentType::Navigate => plan_navigate(intent)?,
        IntentType::Search => plan_search(intent)?,
        IntentType::Scrape => plan_scrape(intent)?,
        IntentType::Compose => plan_compose(intent)?,
        IntentType::System => plan_system(intent)?,
        IntentType::Macro => plan_macro(intent)?,
        IntentType::Query => plan_query(intent)?,
    };
    proof {
        lemma_plan_nonempty(intent.intent_type, intent.slots@, intent.raw@);
    }
    if steps.len() == 0 {
        return Err(CntrlError::Ai("Planner produced zero steps".to_owned()));
    }
    Ok(steps)
}

/// A system action that mentions "mute" but not "unmute" is planned as the
/// script that sets `muted` to true on every audio and video element, then a
/// report that all media were muted; one that mentions "unmute" runs the
/// script that sets `muted` to false. The two scripts differ.
pub proof fn lemma_mute_and_unmute_plans(action: Seq<char>)
    ensures
        contains(action, "mute"@) && !contains(action, "unmute"@) ==> system_steps(action) == seq![
            StepView::RunScript("document.querySelectorAll('video, audio').forEach(el => el.muted = true)"@),
            StepView::ReportResult("Muted all media"@),
        ],
        contains(action, "unmute"@) ==> system_steps(action) == seq![
            StepView::RunScript("document.querySelectorAll('video, audio').forEach(el => el.muted = false)"@),
            StepView::ReportResult("Unmuted all media"@),
        ],
        "document.querySelectorAll('video, audio').forEach(el => el.muted = true)"@
            != "document.querySelectorAll('video, audio').forEach(el => el.muted = false)"@,
{
    reveal_strlit("document.querySelectorAll('video, audio').forEach(el => el.muted = true)");
    reveal_strlit("document.querySelectorAll('video, audio').forEach(el => el.muted = false)");
    assert("document.querySelectorAll('video, audio').forEach(el => el.muted = true)"@.len()
        != "document.querySelectorAll('video, audio').forEach(el => el.muted = false)"@.len());
}

/// A scrape whose target mentions "bitcoin" or "btc" reads the Bitcoin price
/// from CoinGecko; one that mentions "ethereum" or "eth" but neither of
/// those reads the Ethereum price; any other target is searched for on the
/// web. Every scrape plan waits, reads the page and reports.
pub proof fn lemma_scrape_sources(target: Seq<char>, lower: Seq<char>)
    ensures
        (contains(lower, "bitcoin"@) || contains(lower, "btc"@)) ==> scrape_steps(target, lower)[0] == StepView::NavigateTo(
            "https://api.coingecko.com/api/v3/simple/price?ids=bitcoin&vs_currencies=usd"@,
        ),
        (!(contains(lower, "bitcoin"@) || contains(lower, "btc"@)) && (contains(lower, "ethereum"@) || contains(lower, "eth"@)))
            ==> scrape_steps(target, lower)[0] == StepView::NavigateTo(
            "https://api.coingecko.com/api/v3/simple/price?ids=ethereum&vs_currencies=usd"@,
        ),
        !(contains(lower, "bitcoin"@) || contains(lower, "btc"@) || contains(lower, "ethereum"@) || contains(lower, "eth"@))
            ==> scrape_steps(target, lower)[0] == StepView::NavigateTo(
            "https://www.google.com/search?q="@ + percent_encode(encode_utf8(target)),
        ),
        scrape_steps(target, lower).len() == 4,
        scrape_steps(target, lower)[1] == StepView::WaitFor(2000),
        scrape_steps(target, lower)[2] == StepView::ReadPage,
{
}

} // verus!
