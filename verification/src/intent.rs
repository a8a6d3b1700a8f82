//! Intent parser: classifies a natural-language command into one of seven
//! intent types by keyword matching, and extracts the slots that the planner
//! needs.

use vstd::prelude::*;
use vstd::string::*;
use vstd::utf8::{encode_scalar, encode_utf8};
use crate::error::{is_ai_error, CntrlError};
use crate::ids::new_uuid;
use crate::slots::Slots;
use crate::text::{
    chars_of, concat_str, contains, contains_str, find, find_chars, lemma_find_from_occurs,
    ascii_lower, is_ascii_text, lowercase, marked, opt_view, to_lowercase, trim, trim_range, trim_string, word_bounds, words,
};

verus! {

/// The seven intent categories for every user command.
#[derive(Debug, Clone, Copy, PartialEq, Eq, Structural)]
pub enum IntentType {
    /// "go to reddit", "open youtube"
    Navigate,
    /// "search for best lo-fi playlists"
    Search,
    /// "get the bitcoin price", "what's trending on HN?"
    Scrape,
    /// "write an email to...", "draft a reply to..."
    Compose,
    /// "mute", "close all tabs", "take screenshot"
    System,
    /// "record this", "run my morning routine"
    Macro,
    /// "summarize this page", "translate this"
    Query,
}

/// The result of parsing a natural language command.
#[derive(Debug, Clone)]
pub struct IntentResult {
    /// Unique identifier for this intent.
    pub id: uuid::Uuid,
    /// Classified intent type.
    pub intent_type: IntentType,
    /// Confidence of classification, in hundredths (0 to 100).
    pub confidence: u8,
    /// Extracted slots: key-value pairs like `url`, `query`, `target`.
    pub slots: Slots,
    /// Original raw input from the user.
    pub raw: String,
}

// ── Keyword patterns ───────────────────────────────────────────────────

/// Number of keyword patterns.
pub open spec fn pattern_count() -> int {
    10
}

/// The keywords of pattern `p`, patterns ordered by priority.
pub open spec fn pattern_keywords(p: int) -> Seq<Seq<char>> {
    if p == 0 {
        seq!["mute"@, "unmute"@]
    } else if p == 1 {
        seq!["screenshot"@, "screen shot"@, "screen capture"@]
    } else if p == 2 {
        seq!["close tab"@, "close all tab"@, "close all"@]
    } else if p == 3 {
        seq!["new tab"@]
    } else if p == 4 {
        seq!["record"@, "run macro"@, "morning routine"@, "start recording"@]
    } else if p == 5 {
        seq!["go to"@, "open"@, "navigate to"@, "visit"@]
    } else if p == 6 {
        seq!["search for"@, "search"@, "find me"@, "look up"@, "google"@]
    } else if p == 7 {
        seq![
            "get the"@,
            "what is the price"@,
            "what's the price"@,
            "price of"@,
            "trending on"@,
            "scrape"@,
            "extract"@,
            "what's trending"@,
        ]
    } else if p == 8 {
        seq!["write"@, "draft"@, "compose"@, "email to"@, "reply to"@, "create a post"@]
    } else if p == 9 {
        seq![
            "summarize"@,
            "translate"@,
            "explain"@,
            "what does"@,
            "how does"@,
            "tell me about"@,
            "describe"@,
        ]
    } else {
        seq![]
    }
}

/// The intent that pattern `p` maps to.
pub open spec fn pattern_intent(p: int) -> IntentType {
    if p <= 3 {
        IntentType::System
    } else if p == 4 {
        IntentType::Macro
    } else if p == 5 {
        IntentType::Navigate
    } else if p == 6 {
        IntentType::Search
    } else if p == 7 {
        IntentType::Scrape
    } else if p == 8 {
        IntentType::Compose
    } else {
        IntentType::Query
    }
}

/// The confidence, in hundredths, of pattern `p`.
pub open spec fn pattern_confidence(p: int) -> u8 {
    if p <= 2 {
        95
    } else if p == 3 {
        90
    } else if p <= 6 {
        85
    } else {
        80
    }
}

/// The confidence of the fallback classification (`Query`).
pub open spec fn fallback_confidence() -> u8 {
    30
}

/// The views of a list of texts.
pub open spec fn views(v: Seq<&str>) -> Seq<Seq<char>> {
    v.map_values(|k: &str| k@)
}

/// Some keyword of `kws` occurs in `text`.
pub open spec fn contains_any(text: Seq<char>, kws: Seq<Seq<char>>) -> bool {
    exists|k: int| 0 <= k < kws.len() && contains(text, #[trigger] kws[k])
}

/// Some keyword of pattern `p` occurs in `lower`.
pub open spec fn pattern_matches(lower: Seq<char>, p: int) -> bool {
    contains_any(lower, pattern_keywords(p))
}

/// The first pattern, from `p` on, that matches `lower`.
pub open spec fn first_match_from(lower: Seq<char>, p: int) -> Option<int>
    decreases pattern_count() - p,
{
    if p < 0 || p >= pattern_count() {
        None
    } else if pattern_matches(lower, p) {
        Some(p)
    } else {
        first_match_from(lower, p + 1)
    }
}

/// The classification of a lowercased, trimmed command: the intent and
/// confidence of the first matching pattern, or `Query` at the fallback
/// confidence when no pattern matches.
pub open spec fn classify(lower: Seq<char>) -> (IntentType, u8) {
    match first_match_from(lower, 0) {
        Some(p) => (pattern_intent(p), pattern_confidence(p)),
        None => (IntentType::Query, fallback_confidence()),
    }
}

fn pattern_keywords_exec(p: usize) -> (r: Vec<&'static str>)
    requires
        p < 10,
    ensures
        views(r@) == pattern_keywords(p as int),
{
    let r = if p == 0 {
        vec!["mute", "unmute"]
    } else if p == 1 {
        vec!["screenshot", "screen shot", "screen capture"]
    } else if p == 2 {
        vec!["close tab", "close all tab", "close all"]
    } else if p == 3 {
        vec!["new tab"]
    } else if p == 4 {
        vec!["record", "run macro", "morning routine", "start recording"]
    } else if p == 5 {
        vec!["go to", "open", "navigate to", "visit"]
    } else if p == 6 {
        vec!["search for", "search", "find me", "look up", "google"]
    } else if p == 7 {
        vec![
            "get the",
            "what is the price",
            "what's the price",
            "price of",
            "trending on",
            "scrape",
            "extract",
            "what's trending",
        ]
    } else if p == 8 {
        vec!["write", "draft", "compose", "email to", "reply to", "create a post"]
    } else {
        vec!["summarize", "translate", "explain", "what does", "how does", "tell me about", "describe"]
    };
    assert(views(r@) =~= pattern_keywords(p as int));
    r
}

fn pattern_intent_exec(p: usize) -> (r: IntentType)
    ensures
        r == pattern_intent(p as int),
{
    if p <= 3 {
        IntentType::System
    } else if p == 4 {
        IntentType::Macro
    } else if p == 5 {
        IntentType::Navigate
    } else if p == 6 {
        IntentType::Search
    } else if p == 7 {
        IntentType::Scrape
    } else if p == 8 {
        IntentType::Compose
    } else {
        IntentType::Query
    }
}

fn pattern_confidence_exec(p: usize) -> (r: u8)
    ensures
        r == pattern_confidence(p as int),
{
    if p <= 2 {
        95
    } else if p == 3 {
        90
    } else if p <= 6 {
        85
    } else {
        80
    }
}

/// Whether some keyword of `kws` occurs in `text`; the scan stops at the
/// first keyword found.
pub fn contains_any_exec(text: &[char], kws: &Vec<&str>) -> (r: bool)
    ensures
        r == contains_any(text@, views(kws@)),
{
    let n = kws.len();
    let mut k: usize = 0;
    while k < n
        invariant
            k <= n,
            n == kws@.len(),
            forall|j: int| 0 <= j < k ==> !contains(text@, #[trigger] views(kws@)[j]),
        decreases n - k,
    {
        if contains_str(text, kws[k]) {
            assert(contains(text@, views(kws@)[k as int]));
            return true;
        }
        k = k + 1;
    }
    false
}

/// Classifies a lowercased, trimmed command. Patterns are tried in priority
/// order; a pattern whose keyword occurs replaces the current best only when
/// its confidence is strictly higher, so among equally confident patterns the
/// first one wins.
pub fn classify_lowered(lower: &[char]) -> (r: (IntentType, u8))
    ensures
        r == classify(lower@),
{
    let mut best_intent = IntentType::Query;
    let mut best_confidence: u8 = 30;
    let ghost mut chosen: Option<int> = None;
    let mut p: usize = 0;
    while p < 10
        invariant
            p <= 10,
            match chosen {
                Some(q) => {
                    &&& 0 <= q < p
                    &&& first_match_from(lower@, 0) == Some(q)
                    &&& best_intent == pattern_intent(q)
                    &&& best_confidence == pattern_confidence(q)
                },
                None => {
                    &&& first_match_from(lower@, 0) == first_match_from(lower@, p as int)
                    &&& best_intent == IntentType::Query
                    &&& best_confidence == 30
                },
            },
        decreases 10 - p,
    {
        let kws = pattern_keywords_exec(p);
        if contains_any_exec(lower, &kws) {
            let confidence = pattern_confidence_exec(p);
            if confidence > best_confidence {
                best_confidence = confidence;
                best_intent = pattern_intent_exec(p);
                proof {
                    chosen = Some(p as int);
                }
            }
        }
        p = p + 1;
    }
    (best_intent, best_confidence)
}

// ── Slot extraction ────────────────────────────────────────────────────

/// The trimmed text after the first occurrence of a keyword, for the first
/// keyword (in the given order) that occurs and leaves a non-empty text.
pub open spec fn after_keywords(input: Seq<char>, kws: Seq<Seq<char>>) -> Option<Seq<char>>
    decreases kws.len(),
{
    if kws.len() == 0 {
        None
    } else {
        match find(input, kws[0]) {
            Some(pos) => {
                let after = trim(input.subrange(pos + kws[0].len(), input.len() as int));
                if after.len() > 0 {
                    Some(after)
                } else {
                    after_keywords(input, kws.drop_first())
                }
            },
            None => after_keywords(input, kws.drop_first()),
        }
    }
}

/// Extracts the text that comes after any of the given keywords.
pub fn extract_after_keywords(input: &str, keywords: &[&str]) -> (r: Option<String>)
    ensures
        opt_view(r) == after_keywords(input@, views(keywords@)),
{
    let cs = chars_of(input);
    let n = keywords.len();
    let mut k: usize = 0;
    assert(views(keywords@).skip(0) =~= views(keywords@));
    while k < n
        invariant
            k <= n,
            n == keywords@.len(),
            cs@ == input@,
            after_keywords(input@, views(keywords@)) == after_keywords(input@, views(keywords@).skip(k as int)),
        decreases n - k,
    {
        let ghost rest = views(keywords@).skip(k as int);
        assert(rest.drop_first() =~= views(keywords@).skip(k + 1));
        assert(rest[0] == keywords@[k as int]@);
        let kc = chars_of(keywords[k]);
        match find_chars(cs.as_slice(), kc.as_slice()) {
            Some(pos) => {
                proof {
                    lemma_find_from_occurs(cs@, kc@, 0);
                }
                let cl = cs.len();
                assert(pos + kc@.len() <= cl);
                let (a, b) = trim_range(cs.as_slice(), pos + kc.len());
                if a < b {
                    return Some(input.substring_char(a, b).to_owned());
                }
            },
            None => {},
        }
        k = k + 1;
    }
    None
}

/// A word that names a URL: one that holds a scheme or `www.` is taken as
/// it is; one with an inner dot and more than three bytes gets `https://`.
pub open spec fn url_of_word(w: Seq<char>) -> Option<Seq<char>> {
    if contains(w, "http://"@) || contains(w, "https://"@) || contains(w, "www."@) {
        Some(w)
    } else if contains(w, "."@) && !(w.len() > 0 && w.last() == '.') && encode_utf8(w).len() > 3 {
        Some("https://"@ + w)
    } else {
        None
    }
}

/// A word that carries a scheme (`http://` or `https://`) or `www.` is
/// taken as the URL exactly as written: nothing is put in front of it.
pub proof fn lemma_scheme_word_is_its_own_url(w: Seq<char>)
    requires
        contains(w, "http://"@) || contains(w, "https://"@) || contains(w, "www."@),
    ensures
        url_of_word(w) == Some(w),
{
}

proof fn lemma_utf8_len_at_least(w: Seq<char>)
    ensures
        encode_utf8(w).len() >= w.len(),
    decreases w.len(),
{
    if w.len() > 0 {
        lemma_utf8_len_at_least(w.drop_first());
    }
}

/// A word without a scheme or `www.` that has a dot, does not end with a
/// dot and has more than three characters names the URL `https://`
/// followed by the word; a word without any dot names no URL.
pub proof fn lemma_dotted_word_gets_https(w: Seq<char>)
    requires
        !contains(w, "http://"@),
        !contains(w, "https://"@),
        !contains(w, "www."@),
    ensures
        contains(w, "."@) && w.last() != '.' && w.len() > 3 ==> url_of_word(w) == Some("https://"@ + w),
        !contains(w, "."@) ==> url_of_word(w) is None,
{
    lemma_utf8_len_at_least(w);
}

/// When the first word of a command that names a URL carries a scheme or
/// `www.`, the URL found in the command is that word as written.
pub proof fn lemma_first_scheme_word_is_the_url(ws: Seq<Seq<char>>, i: int)
    requires
        0 <= i < ws.len(),
        contains(ws[i], "http://"@) || contains(ws[i], "https://"@) || contains(ws[i], "www."@),
        forall|j: int| 0 <= j < i ==> url_of_word(#[trigger] ws[j]) is None,
    ensures
        first_url(ws) == Some(ws[i]),
    decreases i,
{
    if i > 0 {
        assert(url_of_word(ws[0]) is None);
        assert forall|j: int| 0 <= j < i - 1 implies url_of_word(#[trigger] ws.drop_first()[j]) is None by {
            assert(ws.drop_first()[j] == ws[j + 1]);
        }
        lemma_first_scheme_word_is_the_url(ws.drop_first(), i - 1);
    }
}

/// The URL named by the first word, in order, that names one.
pub open spec fn first_url(ws: Seq<Seq<char>>) -> Option<Seq<char>>
    decreases ws.len(),
{
    if ws.len() == 0 {
        None
    } else {
        match url_of_word(ws[0]) {
            Some(u) => Some(u),
            None => first_url(ws.drop_first()),
        }
    }
}

/// Well-known site aliases and their URLs, in the order they are tried.
pub open spec fn site_aliases() -> Seq<(Seq<char>, Seq<char>)> {
    seq![
        ("youtube"@, "https://youtube.com"@),
        ("reddit"@, "https://reddit.com"@),
        ("twitter"@, "https://twitter.com"@),
        ("x.com"@, "https://x.com"@),
        ("github"@, "https://github.com"@),
        ("hacker news"@, "https://news.ycombinator.com"@),
        ("hn"@, "https://news.ycombinator.com"@),
        ("google"@, "https://google.com"@),
        ("gmail"@, "https://mail.google.com"@),
        ("wikipedia"@, "https://wikipedia.org"@),
    ]
}

/// The URL of the first alias, in order, that occurs in `input`.
pub open spec fn first_alias(input: Seq<char>, aliases: Seq<(Seq<char>, Seq<char>)>) -> Option<Seq<char>>
    decreases aliases.len(),
{
    if aliases.len() == 0 {
        None
    } else if contains(input, aliases[0].0) {
        Some(aliases[0].1)
    } else {
        first_alias(input, aliases.drop_first())
    }
}

/// A URL or well-known site named in `input`: an explicit URL-like word
/// first, then a site alias.
pub open spec fn url_or_site(input: Seq<char>) -> Option<Seq<char>> {
    match first_url(words(input)) {
        Some(u) => Some(u),
        None => first_alias(input, site_aliases()),
    }
}

/// The number of bytes in the UTF-8 encoding of `c`.
fn utf8_width(c: char) -> (r: usize)
    ensures
        r == encode_scalar(c as u32).len(),
{
    let v = c as u32;
    if v <= 0x7f {
        1
    } else if v <= 0x7ff {
        2
    } else if v <= 0xffff && !(0xd800 <= v && v <= 0xdfff) {
        3
    } else {
        4
    }
}

/// Whether the UTF-8 encoding of `w` is longer than three bytes.
fn more_than_three_bytes(w: &[char]) -> (r: bool)
    ensures
        r == (encode_utf8(w@).len() > 3),
{
    let mut i: usize = w.len();
    let mut total: usize = 0;
    assert(w@.skip(w@.len() as int) =~= Seq::<char>::empty());
    while i > 0
        invariant
            i <= w@.len(),
            total <= 4,
            total == (if encode_utf8(w@.skip(i as int)).len() > 4 { 4 } else { encode_utf8(w@.skip(i as int)).len() }),
        decreases i,
    {
        let width = utf8_width(w[i - 1]);
        assert(w@.skip(i - 1).drop_first() =~= w@.skip(i as int));
        assert(w@.skip(i - 1)[0] == w@[i - 1]);
        total = if total + width > 4 { 4 } else { total + width };
        i = i - 1;
    }
    assert(w@.skip(0) =~= w@);
    total > 3
}

fn url_of_word_exec(w: &str) -> (r: Option<String>)
    ensures
        opt_view(r) == url_of_word(w@),
{
    let wc = chars_of(w);
    if contains_str(wc.as_slice(), "http://") || contains_str(wc.as_slice(), "https://")
        || contains_str(wc.as_slice(), "www.") {
        return Some(w.to_owned());
    }
    let ends_with_dot = wc.len() > 0 && wc[wc.len() - 1] == '.';
    if contains_str(wc.as_slice(), ".") && !ends_with_dot && more_than_three_bytes(wc.as_slice()) {
        return Some(concat_str("https://", w));
    }
    None
}

fn site_aliases_exec() -> (r: Vec<(&'static str, &'static str)>)
    ensures
        r@.map_values(|p: (&str, &str)| (p.0@, p.1@)) == site_aliases(),
{
    let r = vec![
        ("youtube", "https://youtube.com"),
        ("reddit", "https://reddit.com"),
        ("twitter", "https://twitter.com"),
        ("x.com", "https://x.com"),
        ("github", "https://github.com"),
        ("hacker news", "https://news.ycombinator.com"),
        ("hn", "https://news.ycombinator.com"),
        ("google", "https://google.com"),
        ("gmail", "https://mail.google.com"),
        ("wikipedia", "https://wikipedia.org"),
    ];
    assert(r@.map_values(|p: (&str, &str)| (p.0@, p.1@)) =~= site_aliases());
    r
}

/// Tries to extract a URL or well-known site name from the input.
pub fn extract_url_or_site(input: &str) -> (r: Option<String>)
    ensures
        opt_view(r) == url_or_site(input@),
{
    let cs = chars_of(input);
    let bounds = word_bounds(cs.as_slice());
    let nb = bounds.len();
    let mut k: usize = 0;
    assert(words(input@).skip(0) =~= words(input@));
    while k < nb
        invariant
            k <= nb,
            nb == bounds@.len(),
            cs@ == input@,
            marked(cs@, bounds@) == words(input@),
            forall|j: int| 0 <= j < bounds@.len() ==> (#[trigger] bounds@[j]).0 < bounds@[j].1 <= cs@.len(),
            first_url(words(input@)) == first_url(words(input@).skip(k as int)),
        decreases nb - k,
    {
        let ghost rest = words(input@).skip(k as int);
        assert(rest.drop_first() =~= words(input@).skip(k + 1));
        let (a, b) = bounds[k];
        assert(rest[0] == cs@.subrange(a as int, b as int));
        let word = input.substring_char(a, b);
        match url_of_word_exec(word) {
            Some(u) => {
                return Some(u);
            },
            None => {},
        }
        k = k + 1;
    }
    assert(words(input@).skip(nb as int) =~= Seq::<Seq<char>>::empty());
    assert(first_url(words(input@)) == None::<Seq<char>>);
    let aliases = site_aliases_exec();
    let na = aliases.len();
    let mut i: usize = 0;
    assert(site_aliases().skip(0) =~= site_aliases());
    while i < na
        invariant
            i <= na,
            na == aliases@.len(),
            cs@ == input@,
            aliases@.map_values(|p: (&str, &str)| (p.0@, p.1@)) == site_aliases(),
            first_url(words(input@)) == None::<Seq<char>>,
            first_alias(input@, site_aliases()) == first_alias(input@, site_aliases().skip(i as int)),
        decreases na - i,
    {
        let ghost rest = site_aliases().skip(i as int);
        assert(rest.drop_first() =~= site_aliases().skip(i + 1));
        assert(rest[0] == (aliases@[i as int].0@, aliases@[i as int].1@));
        let (alias, url) = aliases[i];
        if contains_str(cs.as_slice(), alias) {
            return Some(url.to_owned());
        }
        i = i + 1;
    }
    None
}

/// Keywords after which a search query is taken.
pub open spec fn search_slot_keywords() -> Seq<Seq<char>> {
    seq!["search for"@, "search"@, "find me"@, "look up"@, "google"@]
}

/// Keywords after which a scrape target is taken.
pub open spec fn scrape_slot_keywords() -> Seq<Seq<char>> {
    seq!["get the"@, "price of"@, "what is the"@, "what's the"@]
}

/// Keywords after which the content to compose is taken.
pub open spec fn compose_slot_keywords() -> Seq<Seq<char>> {
    seq!["write"@, "draft"@, "compose"@, "email to"@, "reply to"@]
}

/// A single slot `key` when there is a value, no slot otherwise.
pub open spec fn optional_slot(key: Seq<char>, value: Option<Seq<char>>) -> Map<Seq<char>, Seq<char>> {
    match value {
        Some(v) => Map::empty().insert(key, v),
        None => Map::empty(),
    }
}

/// The slots extracted for an intent of type `t` from the lowercased,
/// trimmed command `lower` whose raw text is `raw`.
pub open spec fn intent_slots(t: IntentType, lower: Seq<char>, raw: Seq<char>) -> Map<Seq<char>, Seq<char>> {
    match t {
        IntentType::Navigate => optional_slot("url"@, url_or_site(lower)),
        IntentType::Search => optional_slot("query"@, after_keywords(lower, search_slot_keywords())),
        IntentType::Scrape => optional_slot("target"@, after_keywords(lower, scrape_slot_keywords())),
        IntentType::Compose => optional_slot(
            "content"@,
            after_keywords(lower, compose_slot_keywords()),
        ),
        IntentType::Query => Map::empty().insert("query"@, raw),
        IntentType::System | IntentType::Macro => Map::empty().insert("action"@, lower),
    }
}

/// `res` is the parse of a command whose lowercased, trimmed text is `lower`
/// and whose raw text is `raw` (the identifier aside, which is random).
pub open spec fn parsed(lower: Seq<char>, raw: Seq<char>, res: IntentResult) -> bool {
    let (t, confidence) = classify(lower);
    &&& res.intent_type == t
    &&& res.confidence == confidence
    &&& res.slots@ == intent_slots(t, lower, raw)
    &&& res.raw@ == raw
}

fn optional_slot_exec(key: &str, value: Option<String>) -> (r: Slots)
    ensures
        r@ == optional_slot(key@, opt_view(value)),
{
    let mut slots = Slots::new();
    match value {
        Some(v) => {
            slots.insert(key.to_owned(), v);
        },
        None => {},
    }
    slots
}

/// The slots for an intent of type `t` from the lowercased, trimmed command
/// `lower` whose raw text is `raw`.
pub fn extract_slots(t: IntentType, lower: &str, raw: &str) -> (r: Slots)
    ensures
        r@ == intent_slots(t, lower@, raw@),
{
    match t {
        IntentType::Navigate => optional_slot_exec("url", extract_url_or_site(lower)),
        IntentType::Search => {
            let kws = ["search for", "search", "find me", "look up", "google"];
            assert(views(kws@) =~= search_slot_keywords());
            optional_slot_exec("query", extract_after_keywords(lower, &kws))
        },
        IntentType::Scrape => {
            let kws = ["get the", "price of", "what is the", "what's the"];
            assert(views(kws@) =~= scrape_slot_keywords());
            optional_slot_exec("target", extract_after_keywords(lower, &kws))
        },
        IntentType::Compose => {
            let kws = ["write", "draft", "compose", "email to", "reply to"];
            assert(views(kws@) =~= compose_slot_keywords());
            optional_slot_exec("content", extract_after_keywords(lower, &kws))
        },
        IntentType::Query => {
            let mut slots = Slots::new();
            slots.insert("query".to_owned(), raw.to_owned());
            slots
        },
        IntentType::System | IntentType::Macro => {
            let mut slots = Slots::new();
            slots.insert("action".to_owned(), lower.to_owned());
            slots
        },
    }
}

/// Parses a command from its lowercased text `lowered` and its raw text
/// `input`: the trimmed lowercase text is classified and its slots are
/// extracted; an empty command is refused.
pub fn parse_lowered(lowered: &str, input: &str) -> (r: Result<IntentResult, CntrlError>)
    ensures
        r is Err <==> trim(lowered@).len() == 0,
        match r {
            Ok(res) => parsed(trim(lowered@), input@, res),
            Err(e) => is_ai_error(e, "Empty input"@),
        },
{
    let lower = trim_string(lowered);
    if lower.as_str().is_empty() {
        return Err(CntrlError::Ai("Empty input".to_owned()));
    }
    let lc = chars_of(lower.as_str());
    let (intent_type, confidence) = classify_lowered(lc.as_slice());
    let slots = extract_slots(intent_type, lower.as_str(), input);
    Ok(IntentResult { id: new_uuid(), intent_type, confidence, slots, raw: input.to_owned() })
}

/// Parses a natural language input into a structured intent: the input is
/// lowercased and trimmed, classified by the first matching keyword pattern,
/// and the slots of its intent type are extracted. An input that is empty
/// once trimmed is refused.
pub fn parse_intent(input: &str) -> (r: Result<IntentResult, CntrlError>)
    ensures
        r is Err <==> trim(lowercase(input@)).len() == 0,
        match r {
            Ok(res) => parsed(trim(lowercase(input@)), input@, res),
            Err(e) => is_ai_error(e, "Empty input"@),
        },
        is_ascii_text(input@) ==> lowercase(input@) == ascii_lower(input@),
{
    let lowered = to_lowercase(input);
    parse_lowered(lowered.as_str(), input)
}

} // verus!
