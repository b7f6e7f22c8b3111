use vstd::prelude::*;

use crate::text::{ends_with, has_suffix, same_text};

verus! {

/// The map that a sequence of `(key, text)` pairs stands for: later pairs win.
pub open spec fn map_of(s: Seq<(String, String)>) -> Map<Seq<char>, Seq<char>>
    decreases s.len(),
{
    if s.len() == 0 {
        Map::empty()
    } else {
        map_of(s.drop_last()).insert(s.last().0@, s.last().1@)
    }
}

/// No key occurs twice.
pub open spec fn keys_unique(s: Seq<(String, String)>) -> bool {
    forall|i: int, j: int| 0 <= i < j < s.len() ==> s[i].0@ != s[j].0@
}

/// The keys of `map_of(s)` are the keys of the pairs, and with unique keys
/// each one maps to the text of its own pair.
pub proof fn lemma_map_of(s: Seq<(String, String)>)
    ensures
        map_of(s).dom().finite(),
        forall|k: Seq<char>|
            #[trigger] map_of(s).contains_key(k) <==> exists|i: int|
                0 <= i < s.len() && s[i].0@ == k,
        keys_unique(s) ==> forall|i: int|
            0 <= i < s.len() ==> #[trigger] map_of(s)[s[i].0@] == s[i].1@,
        keys_unique(s) ==> map_of(s).dom().len() == s.len(),
    decreases s.len(),
{
    if s.len() > 0 {
        let t = s.drop_last();
        lemma_map_of(t);
        assert forall|k: Seq<char>|
            #[trigger] map_of(s).contains_key(k) <==> exists|i: int|
                0 <= i < s.len() && s[i].0@ == k by {
            if map_of(t).contains_key(k) {
                let i = choose|i: int| 0 <= i < t.len() && t[i].0@ == k;
                assert(s[i].0@ == k);
            }
            if exists|i: int| 0 <= i < s.len() && s[i].0@ == k {
                let i = choose|i: int| 0 <= i < s.len() && s[i].0@ == k;
                if i < t.len() {
                    assert(t[i].0@ == k);
                }
            }
        }
        if keys_unique(s) {
            assert(keys_unique(t));
            assert(!map_of(t).contains_key(s.last().0@)) by {
                if map_of(t).contains_key(s.last().0@) {
                    let i = choose|i: int| 0 <= i < t.len() && t[i].0@ == s.last().0@;
                    assert(s[i].0@ == s[s.len() - 1].0@);
                }
            }
            assert forall|i: int| 0 <= i < s.len() implies #[trigger] map_of(s)[s[i].0@]
                == s[i].1@ by {
                if i < t.len() {
                    assert(t[i] == s[i]);
                    assert(s[i].0@ != s[s.len() - 1].0@);
                }
            }
        }
    }
}

/// An entry worth reporting: its text is not empty and its key ends,
/// case-sensitively, in `.pdf` or `.csv`.
pub open spec fn is_relevant(key: Seq<char>, text: Seq<char>) -> bool {
    text.len() > 0 && (has_suffix(key, ".pdf"@) || has_suffix(key, ".csv"@))
}

/// The entries of `m` that are relevant, unchanged.
pub open spec fn relevant(m: Map<Seq<char>, Seq<char>>) -> Map<Seq<char>, Seq<char>> {
    Map::new(|k: Seq<char>| m.contains_key(k) && is_relevant(k, m[k]), |k: Seq<char>| m[k])
}

/// A mapping from keys to extracted text, each key present once.
pub struct ContentMap {
    entries: Vec<(String, String)>,
}

impl View for ContentMap {
    type V = Map<Seq<char>, Seq<char>>;

    closed spec fn view(&self) -> Map<Seq<char>, Seq<char>> {
        map_of(self.entries@)
    }
}

impl ContentMap {
    /// Keys are unique.
    pub closed spec fn wf(&self) -> bool {
        keys_unique(self.entries@)
    }

    pub fn new() -> (r: ContentMap)
        ensures
            r.wf(),
            r@ == Map::<Seq<char>, Seq<char>>::empty(),
    {
        ContentMap { entries: Vec::new() }
    }

    /// The position of `key` among the entries, if it is there.
    fn position(&self, key: &str) -> (r: Option<usize>)
        requires
            self.wf(),
        ensures
            r is None <==> !self@.contains_key(key@),
            r matches Some(j) ==> j < self.entries@.len() && self.entries@[j as int].0@ == key@,
    {
        proof {
            lemma_map_of(self.entries@);
        }
        let mut j: usize = 0;
        while j < self.entries.len()
            invariant
                j <= self.entries@.len(),
                forall|i: int| 0 <= i < j ==> self.entries@[i].0@ != key@,
            decreases self.entries@.len() - j,
        {
            if same_text(self.entries[j].0.as_str(), key) {
                proof {
                    lemma_map_of(self.entries@);
                    assert(map_of(self.entries@).contains_key(self.entries@[j as int].0@));
                }
                return Some(j);
            }
            j = j + 1;
        }
        None
    }

    /// Sets the text of `key`, replacing any text it had.
    pub fn insert(&mut self, key: String, value: String)
        requires
            old(self).wf(),
        ensures
            final(self).wf(),
            final(self)@ == old(self)@.insert(key@, value@),
    {
        proof {
            lemma_map_of(self.entries@);
        }
        match self.position(key.as_str()) {
            Some(j) => {
                let ghost before = self.entries@;
                let ghost k = key@;
                let ghost v = value@;
                self.entries.set(j, (key, value));
                proof {
                    let after = self.entries@;
                    assert(keys_unique(after)) by {
                        assert forall|a: int, b: int| 0 <= a < b < after.len() implies after[a].0@
                            != after[b].0@ by {
                            if a != j && b != j {
                                assert(after[a] == before[a] && after[b] == before[b]);
                            } else if a == j {
                                assert(after[b] == before[b]);
                            } else {
                                assert(after[a] == before[a]);
                            }
                        }
                    }
                    lemma_map_of(after);
                    assert forall|i: int| 0 <= i < after.len() && i != j implies after[i]
                        == before[i] by {}
                    assert(map_of(after) =~= map_of(before).insert(k, v)) by {
                        assert forall|q: Seq<char>| #[trigger]
                            map_of(after).contains_key(q) == map_of(before).insert(
                                k,
                                v,
                            ).contains_key(q) by {
                            if map_of(before).contains_key(q) {
                                let i = choose|i: int| 0 <= i < before.len() && before[i].0@ == q;
                                if i != j {
                                    assert(after[i].0@ == q);
                                }
                            }
                            if map_of(after).contains_key(q) {
                                let i = choose|i: int| 0 <= i < after.len() && after[i].0@ == q;
                                if i != j {
                                    assert(before[i].0@ == q);
                                }
                            }
                            assert(after[j as int].0@ == k);
                        }
                        assert forall|q: Seq<char>| #[trigger]
                            map_of(after).contains_key(q) implies map_of(after)[q] == map_of(
                                before,
                            ).insert(k, v)[q] by {
                            let i = choose|i: int| 0 <= i < after.len() && after[i].0@ == q;
                            if i != j {
                                assert(before[i].0@ == q);
                                assert(map_of(after)[after[i].0@] == after[i].1@);
                                assert(map_of(before)[before[i].0@] == before[i].1@);
                            } else {
                                assert(map_of(after)[after[j as int].0@] == after[j as int].1@);
                            }
                        }
                    }
                }
            },
            None => {
                let ghost before = self.entries@;
                self.entries.push((key, value));
                proof {
                    assert(self.entries@.drop_last() =~= before);
                    assert forall|a: int, b: int|
                        0 <= a < b < self.entries@.len() implies self.entries@[a].0@
                        != self.entries@[b].0@ by {
                        if b == before.len() {
                            assert(before[a] == self.entries@[a]);
                        } else {
                            assert(before[a] == self.entries@[a] && before[b] == self.entries@[b]);
                        }
                    }
                }
            },
        }
    }

    /// The text stored under `key`.
    pub fn get(&self, key: &str) -> (r: Option<&String>)
        requires
            self.wf(),
        ensures
            r is None <==> !self@.contains_key(key@),
            r matches Some(v) ==> v@ == self@[key@],
    {
        match self.position(key) {
            Some(j) => {
                proof {
                    lemma_map_of(self.entries@);
                    assert(self@[self.entries@[j as int].0@] == self.entries@[j as int].1@);
                }
                Some(&self.entries[j].1)
            },
            None => None,
        }
    }

    /// The number of keys.
    pub fn len(&self) -> (r: usize)
        requires
            self.wf(),
        ensures
            r == self@.len(),
    {
        proof {
            lemma_map_of(self.entries@);
        }
        self.entries.len()
    }

    /// The entries as pairs, each key once, in no particular order.
    pub fn pairs(&self) -> (r: &Vec<(String, String)>)
        requires
            self.wf(),
        ensures
            keys_unique(r@),
            map_of(r@) == self@,
    {
        &self.entries
    }

    /// Adds every entry of `other`, whose text wins where a key is in both.
    pub fn merge(&mut self, other: &ContentMap)
        requires
            old(self).wf(),
            other.wf(),
        ensures
            final(self).wf(),
            final(self)@ == old(self)@.union_prefer_right(other@),
    {
        let ghost start = self@;
        let ghost src = other.entries@;
        let mut i: usize = 0;
        assert(src.subrange(0, 0) =~= Seq::<(String, String)>::empty());
        assert(start.union_prefer_right(map_of(src.subrange(0, 0))) =~= start);
        while i < other.entries.len()
            invariant
                src == other.entries@,
                i <= src.len(),
                self.wf(),
                self@ == start.union_prefer_right(map_of(src.subrange(0, i as int))),
            decreases src.len() - i,
        {
            let k = other.entries[i].0.clone();
            let v = other.entries[i].1.clone();
            self.insert(k, v);
            proof {
                let next = src.subrange(0, i + 1);
                assert(next.drop_last() =~= src.subrange(0, i as int));
                assert(self@ =~= start.union_prefer_right(map_of(next)));
            }
            i = i + 1;
        }
        assert(src.subrange(0, src.len() as int) =~= src);
    }

    /// Keeps the relevant entries and drops the rest.
    pub fn only_relevant(&self) -> (r: ContentMap)
        requires
            self.wf(),
        ensures
            r.wf(),
            r@ == relevant(self@),
    {
        let ghost src = self.entries@;
        proof {
            lemma_map_of(src);
        }
        let mut out = ContentMap::new();
        let mut i: usize = 0;
        assert(relevant(map_of(src.subrange(0, 0))) =~= Map::<Seq<char>, Seq<char>>::empty());
        while i < self.entries.len()
            invariant
                src == self.entries@,
                keys_unique(src),
                i <= src.len(),
                out.wf(),
                out@ == relevant(map_of(src.subrange(0, i as int))),
            decreases src.len() - i,
        {
            let ghost prev = src.subrange(0, i as int);
            let ghost next = src.subrange(0, i + 1);
            proof {
                assert(next.drop_last() =~= prev);
                assert(keys_unique(prev));
                lemma_map_of(prev);
                assert(!map_of(prev).contains_key(src[i as int].0@)) by {
                    if map_of(prev).contains_key(src[i as int].0@) {
                        let a = choose|a: int| 0 <= a < prev.len() && prev[a].0@ == src[i as int].0@;
                        assert(src[a].0@ == src[i as int].0@);
                    }
                }
            }
            let key = &self.entries[i].0;
            let text = &self.entries[i].1;
            let keep = text.as_str().unicode_len() > 0 && (ends_with(key.as_str(), ".pdf")
                || ends_with(key.as_str(), ".csv"));
            if keep {
                out.insert(key.clone(), text.clone());
                proof {
                    assert(out@ =~= relevant(map_of(next)));
                }
            } else {
                proof {
                    assert(out@ =~= relevant(map_of(next)));
                }
            }
            i = i + 1;
        }
        assert(src.subrange(0, src.len() as int) =~= src);
        out
    }
}

} // verus!
