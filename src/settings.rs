//! The key/value settings of one configured channel (address, host, port...).

use vstd::prelude::*;
use crate::text::text_eq;

verus! {

/// Key/value settings; a later value for a key supersedes an earlier one.
/// Held as a list of pairs: Verus proves nothing about lookups in a `HashMap`
/// keyed by `String`, while this form gives `get` an exact contract.
#[derive(Clone, Debug)]
pub struct ChannelSettings {
    entries: Vec<(String, String)>,
}

pub open spec fn settings_map(s: Seq<(String, String)>) -> Map<Seq<char>, Seq<char>>
    decreases s.len(),
{
    if s.len() == 0 {
        Map::empty()
    } else {
        settings_map(s.drop_last()).insert(s.last().0@, s.last().1@)
    }
}

proof fn lemma_settings_absent(s: Seq<(String, String)>, k: Seq<char>)
    requires
        forall|j: int| 0 <= j < s.len() ==> (#[trigger] s[j]).0@ != k,
    ensures
        !settings_map(s).contains_key(k),
    decreases s.len(),
{
    if s.len() > 0 {
        assert forall|j: int| 0 <= j < s.drop_last().len() implies (#[trigger] s.drop_last()[j]).0@
            != k by {
            assert(s.drop_last()[j] == s[j]);
        }
        lemma_settings_absent(s.drop_last(), k);
    }
}

proof fn lemma_settings_last(s: Seq<(String, String)>, i: int, k: Seq<char>)
    requires
        0 <= i < s.len(),
        s[i].0@ == k,
        forall|j: int| i < j < s.len() ==> (#[trigger] s[j]).0@ != k,
    ensures
        settings_map(s).contains_key(k),
        settings_map(s)[k] == s[i].1@,
    decreases s.len(),
{
    if i < s.len() - 1 {
        assert forall|j: int| i < j < s.drop_last().len() implies (#[trigger] s.drop_last()[j]).0@
            != k by {
            assert(s.drop_last()[j] == s[j]);
        }
        assert(s.drop_last()[i] == s[i]);
        lemma_settings_last(s.drop_last(), i, k);
    }
}

impl View for ChannelSettings {
    type V = Map<Seq<char>, Seq<char>>;

    closed spec fn view(&self) -> Map<Seq<char>, Seq<char>> {
        settings_map(self.entries@)
    }
}

impl ChannelSettings {
    pub fn new() -> (r: ChannelSettings)
        ensures
            r@ == Map::<Seq<char>, Seq<char>>::empty(),
    {
        ChannelSettings { entries: Vec::new() }
    }

    /// Sets `key` to `value`.
    pub fn insert(&mut self, key: String, value: String)
        ensures
            final(self)@ == old(self)@.insert(key@, value@),
    {
        self.entries.push((key, value));
        proof {
            assert(self.entries@.drop_last() =~= old(self).entries@);
        }
    }

    /// The pairs in the order they were set.
    pub fn entries(&self) -> (r: &Vec<(String, String)>)
        ensures
            settings_map(r@) == self@,
    {
        &self.entries
    }

    pub fn get(&self, key: &str) -> (r: Option<&String>)
        ensures
            match r {
                None => !self@.contains_key(key@),
                Some(v) => self@.contains_key(key@) && self@[key@] == v@,
            },
    {
        let mut i: usize = self.entries.len();
        while i > 0
            invariant
                i <= self.entries@.len(),
                forall|j: int| i <= j < self.entries@.len() ==> (#[trigger] self.entries@[j]).0@ != key@,
            decreases i,
        {
            if text_eq(self.entries[i - 1].0.as_str(), key) {
                proof {
                    lemma_settings_last(self.entries@, i - 1, key@);
                }
                return Some(&self.entries[i - 1].1);
            }
            i = i - 1;
        }
        proof {
            lemma_settings_absent(self.entries@, key@);
        }
        None
    }

    pub fn contains_key(&self, key: &str) -> (r: bool)
        ensures
            r == self@.contains_key(key@),
    {
        self.get(key).is_some()
    }
}

} // verus!
