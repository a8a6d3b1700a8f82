//! The named slots that the intent parser extracts from a command.

use vstd::prelude::*;
use crate::text::same_text;

verus! {

/// The map that a list of (key, value) entries denotes: a later entry for a
/// key shadows an earlier one.
pub open spec fn entries_map(e: Seq<(String, String)>) -> Map<Seq<char>, Seq<char>>
    decreases e.len(),
{
    if e.len() == 0 {
        Map::empty()
    } else {
        entries_map(e.drop_last()).insert(e.last().0@, e.last().1@)
    }
}

/// Key-value slots such as `url`, `query` or `target`.
#[derive(Debug, Clone)]
pub struct Slots {
    entries: Vec<(String, String)>,
}

impl View for Slots {
    type V = Map<Seq<char>, Seq<char>>;

    closed spec fn view(&self) -> Map<Seq<char>, Seq<char>> {
        entries_map(self.entries@)
    }
}

impl Slots {
    /// No slots.
    pub fn new() -> (r: Slots)
        ensures
            r@ == Map::<Seq<char>, Seq<char>>::empty(),
    {
        Slots { entries: Vec::new() }
    }

    /// Sets `key` to `value`, replacing any earlier value of `key`.
    pub fn insert(&mut self, key: String, value: String)
        ensures
            final(self)@ == old(self)@.insert(key@, value@),
    {
        let ghost before = self.entries@;
        self.entries.push((key, value));
        assert(self.entries@.drop_last() =~= before);
    }

    /// The value of `key`, if it has one.
    pub fn get(&self, key: &str) -> (r: Option<&String>)
        ensures
            match r {
                Some(v) => self@.contains_key(key@) && self@[key@] == v@,
                None => !self@.contains_key(key@),
            },
    {
        let e = &self.entries;
        let mut j: usize = e.len();
        assert(e@.take(j as int) =~= e@);
        while j > 0
            invariant
                j <= e@.len(),
                e@ == self.entries@,
                entries_map(e@.take(j as int)).contains_key(key@) == self@.contains_key(key@),
                self@.contains_key(key@) ==> entries_map(e@.take(j as int))[key@] == self@[key@],
            decreases j,
        {
            assert(e@.take(j as int).drop_last() =~= e@.take(j - 1));
            if same_text(e[j - 1].0.as_str(), key) {
                return Some(&e[j - 1].1);
            }
            j = j - 1;
        }
        None
    }

    /// Whether `key` has a value.
    pub fn contains_key(&self, key: &str) -> (r: bool)
        ensures
            r == self@.contains_key(key@),
    {
        self.get(key).is_some()
    }
}

} // verus!
