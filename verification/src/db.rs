//! Records of the browser database (history, bookmarks, tab session) and
//! the value conventions the database layer follows.

use vstd::prelude::*;

verus! {

/// A visited page.
#[derive(Debug, Clone, PartialEq, Eq)]
pub struct HistoryEntry {
    pub id: i64,
    pub url: String,
    pub title: Option<String>,
    pub visited_at: i64,
}

/// A bookmarked page; one per URL.
#[derive(Debug, Clone, PartialEq, Eq)]
pub struct BookmarkEntry {
    pub id: i64,
    pub url: String,
    pub title: Option<String>,
    pub created_at: i64,
}

/// A tab of the saved session, as read back.
#[derive(Debug, Clone, PartialEq, Eq)]
pub struct TabSessionEntry {
    pub id: i64,
    pub url: String,
    pub position: i32,
    pub is_active: bool,
    pub title: Option<String>,
}

/// A tab of the session to save.
#[derive(Debug, Clone, PartialEq, Eq)]
pub struct TabSessionInput {
    pub url: String,
    pub position: i32,
    pub is_active: bool,
    pub title: Option<String>,
}

/// Number of history entries in a page when the caller sets no limit.
pub open spec fn default_history_limit() -> u32 {
    100
}

/// The limit and offset of a history page: 100 entries from the newest
/// unless the caller says otherwise.
pub fn history_page(limit: Option<u32>, offset: Option<u32>) -> (r: (i64, i64))
    ensures
        r.0 == (match limit {
            Some(l) => l,
            None => default_history_limit(),
        }),
        r.1 == (match offset {
            Some(o) => o,
            None => 0u32,
        }),
{
    let limit_val: u32 = match limit {
        Some(l) => l,
        None => 100,
    };
    let offset_val: u32 = match offset {
        Some(o) => o,
        None => 0,
    };
    (limit_val as i64, offset_val as i64)
}

/// The stored form of a tab's active flag: 1 when active, 0 otherwise.
pub open spec fn stored_flag(is_active: bool) -> i32 {
    if is_active {
        1
    } else {
        0
    }
}

/// The stored form of a tab's active flag.
pub fn active_flag(is_active: bool) -> (r: i32)
    ensures
        r == stored_flag(is_active),
{
    if is_active {
        1
    } else {
        0
    }
}

/// The active flag a stored value denotes: any non-zero value is active.
pub fn flag_is_active(stored: i32) -> (r: bool)
    ensures
        r == (stored != 0),
{
    stored != 0
}

/// Saving a tab's active flag and reading it back gives the same flag.
pub proof fn lemma_active_flag_roundtrip(is_active: bool)
    ensures
        (stored_flag(is_active) != 0) == is_active,
{
}

} // verus!
