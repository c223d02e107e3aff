//! A small map from strings to strings, keyed by the characters of the key.

use vstd::prelude::*;

verus! {

/// Entries as character pairs.
pub open spec fn pairs_view(s: Seq<(String, String)>) -> Seq<(Seq<char>, Seq<char>)> {
    s.map_values(|p: (String, String)| (p.0@, p.1@))
}

/// No two entries share a key.
pub open spec fn keys_unique(s: Seq<(Seq<char>, Seq<char>)>) -> bool {
    forall|i: int, j: int| 0 <= i < s.len() && 0 <= j < s.len() && i != j ==> s[i].0 != s[j].0
}

/// Some entry has key `k`.
pub open spec fn has_key(s: Seq<(Seq<char>, Seq<char>)>, k: Seq<char>) -> bool {
    exists|i: int| 0 <= i < s.len() && s[i].0 == k
}

/// The map the entries describe.
pub open spec fn pairs_map(s: Seq<(Seq<char>, Seq<char>)>) -> Map<Seq<char>, Seq<char>> {
    Map::new(
        |k: Seq<char>| has_key(s, k),
        |k: Seq<char>| s[choose|i: int| 0 <= i < s.len() && s[i].0 == k].1,
    )
}

/// A map from strings to strings. Inserting under an existing key replaces
/// its value, as `HashMap::insert` does.
#[derive(Debug)]
pub struct StringMap {
    entries: Vec<(String, String)>,
}

impl View for StringMap {
    type V = Map<Seq<char>, Seq<char>>;

    closed spec fn view(&self) -> Map<Seq<char>, Seq<char>> {
        pairs_map(pairs_view(self.entries@))
    }
}

impl StringMap {
    #[verifier::type_invariant]
    closed spec fn wf(self) -> bool {
        keys_unique(pairs_view(self.entries@))
    }

    /// An empty map.
    pub fn new() -> (r: Self)
        ensures
            r@ == Map::<Seq<char>, Seq<char>>::empty(),
    {
        let r = StringMap { entries: Vec::new() };
        assert(r@ =~= Map::<Seq<char>, Seq<char>>::empty());
        r
    }

    /// The number of keys.
    pub fn len(&self) -> (n: usize)
        ensures
            n == self@.dom().len(),
    {
        proof {
            use_type_invariant(self);
            lemma_dom_len(pairs_view(self.entries@));
        }
        self.entries.len()
    }

    /// The position of key `k`, if present.
    fn find(&self, k: &str) -> (r: Option<usize>)
        ensures
            r is Some <==> self@.dom().contains(k@),
            r matches Some(i) ==> i < self.entries@.len() && self.entries@[i as int].0@ == k@,
    {
        let key = crate::text::to_owned_string(k);
        let mut i: usize = 0;
        while i < self.entries.len()
            invariant
                i <= self.entries@.len(),
                key@ == k@,
                forall|j: int| 0 <= j < i ==> self.entries@[j].0@ != k@,
            decreases self.entries.len() - i,
        {
            if self.entries[i].0 == key {
                assert(pairs_view(self.entries@)[i as int].0 == k@);
                return Some(i);
            }
            i = i + 1;
        }
        assert(!has_key(pairs_view(self.entries@), k@)) by {
            if has_key(pairs_view(self.entries@), k@) {
                let j = choose|j: int|
                    0 <= j < pairs_view(self.entries@).len() && pairs_view(self.entries@)[j].0
                        == k@;
                assert(self.entries@[j].0@ == k@);
            }
        }
        None
    }

    /// The value stored under `k`.
    pub fn get(&self, k: &str) -> (r: Option<&String>)
        ensures
            match r {
                Some(v) => self@.dom().contains(k@) && self@[k@] == v@,
                None => !self@.dom().contains(k@),
            },
    {
        proof {
            use_type_invariant(self);
        }
        match self.find(k) {
            Some(i) => {
                proof {
                    let s = pairs_view(self.entries@);
                    assert(s[i as int].0 == k@);
                    let c = choose|j: int| 0 <= j < s.len() && s[j].0 == k@;
                    assert(c == i);
                }
                Some(&self.entries[i].1)
            },
            None => None,
        }
    }

    /// Stores `v` under `k`, replacing the value there.
    pub fn insert(&mut self, k: String, v: String)
        ensures
            final(self)@ == old(self)@.insert(k@, v@),
    {
        proof {
            use_type_invariant(&*self);
        }
        let ghost kv = k@;
        let ghost vv = v@;
        let found = self.find(k.as_str());
        let mut entries: Vec<(String, String)> = Vec::new();
        std::mem::swap(&mut entries, &mut self.entries);
        let ghost old_s = pairs_view(entries@);
        match found {
            Some(i) => {
                entries.set(i, (k, v));
                proof {
                    let s = pairs_view(entries@);
                    assert(keys_unique(old_s));
                    assert(old_s[i as int].0 == kv);
                    assert(s =~= old_s.update(i as int, (kv, vv)));
                    assert(keys_unique(s));
                    assert forall|key: Seq<char>| #[trigger] has_key(s, key) == has_key(old_s, key) by {
                        if has_key(old_s, key) {
                            let j = choose|j: int| 0 <= j < old_s.len() && old_s[j].0 == key;
                            assert(s[j].0 == key);
                        }
                        if has_key(s, key) {
                            let j = choose|j: int| 0 <= j < s.len() && s[j].0 == key;
                            assert(old_s[j].0 == key);
                        }
                    }
                    assert(pairs_map(s) =~= pairs_map(old_s).insert(kv, vv)) by {
                        assert forall|key: Seq<char>| #[trigger] pairs_map(s).dom().contains(key)
                            implies pairs_map(s)[key] == pairs_map(old_s).insert(kv, vv)[key] by {
                            let j = choose|j: int| 0 <= j < s.len() && s[j].0 == key;
                            if key != kv {
                                let j2 = choose|j: int| 0 <= j < old_s.len() && old_s[j].0 == key;
                                assert(s[j2].0 == key);
                                assert(j == j2);
                            } else {
                                assert(s[i as int].0 == key);
                                assert(j == i);
                            }
                        }
                    }
                }
            },
            None => {
                entries.push((k, v));
                proof {
                    let s = pairs_view(entries@);
                    assert(keys_unique(old_s));
                    assert(s =~= old_s.push((kv, vv)));
                    assert(!has_key(old_s, kv));
                    assert(keys_unique(s));
                    assert(pairs_map(s) =~= pairs_map(old_s).insert(kv, vv)) by {
                        assert forall|key: Seq<char>| #[trigger] pairs_map(s).dom().contains(key)
                            <==> pairs_map(old_s).insert(kv, vv).dom().contains(key) by {
                            if has_key(old_s, key) {
                                let j = choose|j: int| 0 <= j < old_s.len() && old_s[j].0 == key;
                                assert(s[j].0 == key);
                            }
                            if key == kv {
                                assert(s[old_s.len() as int].0 == key);
                            }
                            if has_key(s, key) && key != kv {
                                let j = choose|j: int| 0 <= j < s.len() && s[j].0 == key;
                                assert(old_s[j].0 == key);
                            }
                        }
                        assert forall|key: Seq<char>| #[trigger] pairs_map(s).dom().contains(key)
                            implies pairs_map(s)[key] == pairs_map(old_s).insert(kv, vv)[key] by {
                            let j = choose|j: int| 0 <= j < s.len() && s[j].0 == key;
                            if key != kv {
                                let j2 = choose|j: int| 0 <= j < old_s.len() && old_s[j].0 == key;
                                assert(s[j2].0 == key);
                                assert(j == j2);
                            } else {
                                assert(s[old_s.len() as int].0 == key);
                                assert(j == old_s.len());
                            }
                        }
                    }
                }
            },
        }
        self.entries = entries;
    }
}

/// With unique keys, the map has one key per entry.
proof fn lemma_dom_len(s: Seq<(Seq<char>, Seq<char>)>)
    requires
        keys_unique(s),
    ensures
        pairs_map(s).dom().len() == s.len(),
        pairs_map(s).dom().finite(),
    decreases s.len(),
{
    if s.len() == 0 {
        assert(pairs_map(s).dom() =~= Set::<Seq<char>>::empty());
    } else {
        let t = s.drop_last();
        lemma_dom_len(t);
        let last = s.last().0;
        assert(pairs_map(s).dom() =~= pairs_map(t).dom().insert(last)) by {
            assert forall|key: Seq<char>| #[trigger] pairs_map(s).dom().contains(key)
                <==> pairs_map(t).dom().insert(last).contains(key) by {
                if has_key(t, key) {
                    let j = choose|j: int| 0 <= j < t.len() && t[j].0 == key;
                    assert(s[j].0 == key);
                }
                if key == last {
                    assert(s[s.len() - 1].0 == key);
                }
                if has_key(s, key) && key != last {
                    let j = choose|j: int| 0 <= j < s.len() && s[j].0 == key;
                    assert(t[j].0 == key);
                }
            }
        }
        assert(!pairs_map(t).dom().contains(last)) by {
            if has_key(t, last) {
                let j = choose|j: int| 0 <= j < t.len() && t[j].0 == last;
                assert(s[j].0 == s[s.len() - 1].0);
            }
        }
    }
}

/// A value stored under a key is what a lookup of that key then finds, and
/// the other keys keep their values.
pub proof fn lemma_insert_then_get(m: Map<Seq<char>, Seq<char>>, k: Seq<char>, v: Seq<char>, other: Seq<char>)
    requires
        other != k,
    ensures
        m.insert(k, v).dom().contains(k),
        m.insert(k, v)[k] == v,
        m.insert(k, v).dom().contains(other) == m.dom().contains(other),
        m.dom().contains(other) ==> m.insert(k, v)[other] == m[other],
{
}

impl Clone for StringMap {
    fn clone(&self) -> (r: Self)
        ensures
            r@ == self@,
    {
        proof {
            use_type_invariant(self);
        }
        let mut entries: Vec<(String, String)> = Vec::new();
        let mut i: usize = 0;
        while i < self.entries.len()
            invariant
                i <= self.entries@.len(),
                pairs_view(entries@) == pairs_view(self.entries@).take(i as int),
            decreases self.entries.len() - i,
        {
            let ghost prev = entries@;
            let k = self.entries[i].0.clone();
            let v = self.entries[i].1.clone();
            let ghost kv = (k@, v@);
            entries.push((k, v));
            assert(pairs_view(entries@) =~= pairs_view(prev).push(kv));
            assert(kv == pairs_view(self.entries@)[i as int]);
            assert(pairs_view(self.entries@).take(i + 1) =~= pairs_view(self.entries@).take(i as int).push(kv));
            i = i + 1;
        }
        assert(pairs_view(self.entries@).take(i as int) =~= pairs_view(self.entries@));
        StringMap { entries }
    }
}

} // verus!
