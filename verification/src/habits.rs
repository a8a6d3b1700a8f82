//! Site habits: which service the user prefers for an intent keyword.

use vstd::prelude::*;

verus! {

/// A single site-habit entry.
#[derive(Debug, Clone)]
pub struct SiteHabit {
    /// The intent classification this habit belongs to (e.g. `"navigate"`).
    pub intent_type: String,
    /// The keyword that triggered the intent (e.g. `"lo-fi"`).
    pub keyword: String,
    /// The preferred service domain (e.g. `"youtube.com"`).
    pub preferred_service: String,
    /// How many times this combination has been used.
    pub use_count: i64,
}

} // verus!
