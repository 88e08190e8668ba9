//! The preset catalog: named, ordered sequences of text items, supplied
//! once at startup.  Reading preset files is the caller's business; the
//! catalog itself only stores and resolves them.

use vstd::prelude::*;
use crate::text::TextSource;

verus! {

/// One named preset: a name and its items in display order.
pub struct PresetEntry {
    pub name: String,
    pub texts: Vec<TextSource>,
}

/// The catalog of presets, in load order, with pairwise distinct names.
pub struct PresetManager {
    pub presets: Vec<PresetEntry>,
}

/// The position of the first entry from `k` on whose name reads `name`.
pub open spec fn spec_find_from(s: Seq<PresetEntry>, name: Seq<char>, k: int) -> Option<int>
    decreases s.len() - k,
{
    if k < 0 || k >= s.len() {
        None
    } else if s[k].name@ == name {
        Some(k)
    } else {
        spec_find_from(s, name, k + 1)
    }
}

/// What `spec_find_from` finds is a real entry with that name, and a
/// `None` means no entry from `k` on carries it.
pub proof fn lemma_find_from(s: Seq<PresetEntry>, name: Seq<char>, k: int)
    requires
        0 <= k <= s.len(),
    ensures
        match spec_find_from(s, name, k) {
            Some(i) => k <= i < s.len() && s[i].name@ == name,
            None => forall|i: int| k <= i < s.len() ==> s[i].name@ != name,
        },
    decreases s.len() - k,
{
    if k < s.len() {
        lemma_find_from(s, name, k + 1);
    }
}

impl PresetManager {
    /// No two presets share a name.
    pub open spec fn wf(&self) -> bool {
        forall|i: int, j: int|
            0 <= i < j < self.presets@.len() ==> self.presets@[i].name@ != self.presets@[
                j
            ].name@
    }

    /// The position of the preset called `name`, if the catalog has one.
    pub open spec fn spec_find(&self, name: Seq<char>) -> Option<int> {
        spec_find_from(self.presets@, name, 0)
    }

    /// Whether the catalog has a preset called `name`.
    pub open spec fn spec_has(&self, name: Seq<char>) -> bool {
        self.spec_find(name) is Some
    }

    /// The items of the preset called `name`; empty when absent.
    pub open spec fn spec_texts_of(&self, name: Seq<char>) -> Seq<TextSource> {
        match self.spec_find(name) {
            Some(i) => self.presets@[i].texts@,
            None => Seq::empty(),
        }
    }

    /// An empty catalog.
    pub fn new() -> (r: Self)
        ensures
            r.wf(),
            r.presets@.len() == 0,
    {
        PresetManager { presets: Vec::new() }
    }

    /// Adds a preset under a fresh name; a duplicate name is refused so
    /// that lookups stay unambiguous.
    pub fn insert(&mut self, name: String, texts: Vec<TextSource>) -> (added: bool)
        requires
            old(self).wf(),
        ensures
            final(self).wf(),
            added == !old(self).spec_has(name@),
            added ==> final(self).presets@.len() == old(self).presets@.len() + 1
                && final(self).presets@.last().name == name
                && final(self).presets@.last().texts == texts
                && (forall|k: int|
                    0 <= k < old(self).presets@.len() ==> final(self).presets@[k] == old(
                        self,
                    ).presets@[k]),
            !added ==> *final(self) == *old(self),
    {
        proof {
            lemma_find_from(self.presets@, name@, 0);
        }
        if self.contains_name(&name) {
            false
        } else {
            self.presets.push(PresetEntry { name, texts });
            proof {
                assert forall|i: int, j: int|
                    0 <= i < j < self.presets@.len() implies self.presets@[i].name@ != self.presets@[
                    j
                ].name@ by {
                    if j == self.presets@.len() - 1 {
                        assert(old(self).presets@[i].name@ != name@);
                    }
                }
            }
            true
        }
    }

    /// Whether a preset of this name exists.
    pub fn contains_name(&self, name: &String) -> (r: bool)
        ensures
            r == self.spec_has(name@),
    {
        let n = self.presets.len();
        let mut i: usize = 0;
        while i < n
            invariant
                i <= n,
                n == self.presets@.len(),
                self.spec_find(name@) == spec_find_from(self.presets@, name@, i as int),
            decreases n - i,
        {
            if self.presets[i].name == *name {
                return true;
            }
            i = i + 1;
        }
        false
    }

    /// The items of the preset called `name`, if the catalog has it.
    pub fn get(&self, name: &String) -> (r: Option<&Vec<TextSource>>)
        ensures
            r is Some <==> self.spec_has(name@),
            r matches Some(texts) ==> texts@ == self.spec_texts_of(name@),
    {
        let n = self.presets.len();
        let mut i: usize = 0;
        while i < n
            invariant
                i <= n,
                n == self.presets@.len(),
                self.spec_find(name@) == spec_find_from(self.presets@, name@, i as int),
            decreases n - i,
        {
            if self.presets[i].name == *name {
                return Some(&self.presets[i].texts);
            }
            i = i + 1;
        }
        None
    }

    /// Every preset name, in catalog order.
    pub fn names(&self) -> (r: Vec<String>)
        ensures
            r@.len() == self.presets@.len(),
            forall|k: int| 0 <= k < r@.len() ==> r@[k] == self.presets@[k].name,
    {
        let n = self.presets.len();
        let mut r: Vec<String> = Vec::new();
        let mut i: usize = 0;
        while i < n
            invariant
                i <= n,
                n == self.presets@.len(),
                r@.len() == i,
                forall|k: int| 0 <= k < i ==> r@[k] == self.presets@[k].name,
            decreases n - i,
        {
            r.push(self.presets[i].name.clone());
            i = i + 1;
        }
        r
    }
}

/// The synthetic item a missing or unreadable preset source falls back
/// to, so the display always has something to show.
pub fn fallback_texts() -> (r: Vec<TextSource>)
    ensures
        r@.len() == 1,
        r@[0].content@ == "This is a Demo Text"@,
        r@[0].duration == 5,
{
    let mut r: Vec<TextSource> = Vec::new();
    r.push(TextSource { content: ("This is a Demo Text").to_owned(), duration: 5 });
    r
}

/// The one-preset catalog used when no preset source can be read at all.
pub fn fallback_manager() -> (r: PresetManager)
    ensures
        r.wf(),
        r.presets@.len() == 1,
        r.presets@[0].name@ == "default"@,
        r.presets@[0].texts@.len() == 1,
        r.presets@[0].texts@[0].content@ == "This is a Demo Text"@,
        r.presets@[0].texts@[0].duration == 5,
{
    let mut m = PresetManager::new();
    let texts = fallback_texts();
    let added = m.insert(("default").to_owned(), texts);
    m
}

} // verus!
