//! JSON values kept by key: the session state and the settings.

use vstd::prelude::*;
use serde_json::Value;
use crate::text::to_owned_string;

verus! {

/// Some entry of `s` has key `k`.
pub open spec fn has_entry(s: Seq<(String, Value)>, k: Seq<char>) -> bool {
    exists|i: int| 0 <= i < s.len() && s[i].0@ == k
}

/// No two entries of `s` share a key.
pub open spec fn entry_keys_unique(s: Seq<(String, Value)>) -> bool {
    forall|i: int, j: int| 0 <= i < s.len() && 0 <= j < s.len() && i != j ==> s[i].0@ != s[j].0@
}

/// The map the entries `s` describe.
pub open spec fn entries_map(s: Seq<(String, Value)>) -> Map<Seq<char>, Value> {
    Map::new(
        |k: Seq<char>| has_entry(s, k),
        |k: Seq<char>| s[choose|i: int| 0 <= i < s.len() && s[i].0@ == k].1,
    )
}

/// `Value::clone`: serde_json derives `Clone` for `Value`, so the copy is
/// the same value.
#[verifier::external_body]
fn clone_value(v: &Value) -> (r: Value)
    ensures
        r == *v,
{
    v.clone()
}

/// `Value::as_bool`: the boolean a JSON `true` or `false` holds, `None` for
/// any other value. What the value holds is not visible here, so the
/// result is not stated.
#[verifier::external_body]
fn value_as_bool(v: &Value) -> (r: Option<bool>) {
    v.as_bool()
}

/// `Value::as_str`: the text a JSON string holds, `None` for any other
/// value. What the value holds is not visible here, so the result is not
/// stated.
#[verifier::external_body]
fn value_as_str(v: &Value) -> (r: Option<&str>) {
    v.as_str()
}

/// JSON values by key, one per key (a map). Setting a key replaces its
/// value, as `HashMap::insert` does.
pub struct StateStore {
    entries: Vec<(String, Value)>,
}

impl View for StateStore {
    type V = Map<Seq<char>, Value>;

    closed spec fn view(&self) -> Map<Seq<char>, Value> {
        entries_map(self.entries@)
    }
}

impl StateStore {
    #[verifier::type_invariant]
    closed spec fn wf(self) -> bool {
        entry_keys_unique(self.entries@)
    }

    /// An empty store.
    pub fn new() -> (r: Self)
        ensures
            r@ == Map::<Seq<char>, Value>::empty(),
    {
        let r = StateStore { entries: Vec::new() };
        assert(r@ =~= Map::<Seq<char>, Value>::empty());
        r
    }

    /// The position of `key`, if present.
    fn find(&self, key: &str) -> (r: Option<usize>)
        ensures
            r is Some <==> self@.dom().contains(key@),
            r matches Some(i) ==> i < self.entries@.len() && self.entries@[i as int].0@ == key@
                && self@[key@] == self.entries@[i as int].1,
    {
        proof {
            use_type_invariant(self);
        }
        let k = to_owned_string(key);
        let mut i: usize = 0;
        while i < self.entries.len()
            invariant
                i <= self.entries@.len(),
                k@ == key@,
                entry_keys_unique(self.entries@),
                forall|j: int| 0 <= j < i ==> self.entries@[j].0@ != key@,
            decreases self.entries.len() - i,
        {
            if self.entries[i].0 == k {
                proof {
                    let s = self.entries@;
                    assert(s[i as int].0@ == key@);
                    let c = choose|j: int| 0 <= j < s.len() && s[j].0@ == key@;
                    assert(c == i);
                }
                return Some(i);
            }
            i = i + 1;
        }
        assert(!has_entry(self.entries@, key@)) by {
            if has_entry(self.entries@, key@) {
                let j = choose|j: int| 0 <= j < self.entries@.len() && self.entries@[j].0@ == key@;
                assert(self.entries@[j].0@ != key@);
            }
        }
        None
    }

    /// A copy of the value under `key`, if any.
    pub fn get(&self, key: &str) -> (r: Option<Value>)
        ensures
            match r {
                Some(v) => self@.dom().contains(key@) && v == self@[key@],
                None => !self@.dom().contains(key@),
            },
    {
        match self.find(key) {
            Some(i) => Some(clone_value(&self.entries[i].1)),
            None => None,
        }
    }

    /// Stores `value` under `key`, replacing the value there.
    pub fn set(&mut self, key: &str, value: Value)
        ensures
            final(self)@ == old(self)@.insert(key@, value),
    {
        proof {
            use_type_invariant(&*self);
        }
        let ghost kv = key@;
        let ghost vv = value;
        let found = self.find(key);
        let mut entries: Vec<(String, Value)> = Vec::new();
        std::mem::swap(&mut entries, &mut self.entries);
        let ghost old_s = entries@;
        match found {
            Some(i) => {
                entries.set(i, (to_owned_string(key), value));
                proof {
                    let s = entries@;
                    assert(s =~= old_s.update(i as int, s[i as int]));
                    assert(s[i as int].0@ == kv);
                    assert(entry_keys_unique(s)) by {
                        assert forall|a: int, b: int|
                            0 <= a < s.len() && 0 <= b < s.len() && a != b implies s[a].0@ != s[b].0@ by {
                            if a != i && b != i {
                                assert(s[a] == old_s[a] && s[b] == old_s[b]);
                            } else if a == i {
                                assert(s[b] == old_s[b]);
                                assert(old_s[i as int].0@ == kv);
                            } else {
                                assert(s[a] == old_s[a]);
                                assert(old_s[i as int].0@ == kv);
                            }
                        }
                    }
                    assert(entries_map(s) =~= entries_map(old_s).insert(kv, vv)) by {
                        assert forall|k: Seq<char>| #[trigger] entries_map(s).dom().contains(k)
                            <==> entries_map(old_s).insert(kv, vv).dom().contains(k) by {
                            if has_entry(old_s, k) {
                                let j = choose|j: int| 0 <= j < old_s.len() && old_s[j].0@ == k;
                                if j != i {
                                    assert(s[j] == old_s[j]);
                                }
                            }
                            if has_entry(s, k) {
                                let j = choose|j: int| 0 <= j < s.len() && s[j].0@ == k;
                                if j != i {
                                    assert(s[j] == old_s[j]);
                                }
                            }
                        }
                        assert forall|k: Seq<char>| #[trigger] entries_map(s).dom().contains(k)
                            implies entries_map(s)[k] == entries_map(old_s).insert(kv, vv)[k] by {
                            let j = choose|j: int| 0 <= j < s.len() && s[j].0@ == k;
                            if k != kv {
                                let j2 = choose|j: int| 0 <= j < old_s.len() && old_s[j].0@ == k;
                                assert(j2 != i);
                                assert(s[j2] == old_s[j2]);
                                assert(j == j2);
                            } else {
                                assert(j == i);
                            }
                        }
                    }
                }
            },
            None => {
                entries.push((to_owned_string(key), value));
                proof {
                    let s = entries@;
                    let n = old_s.len() as int;
                    assert(s =~= old_s.push(s[n]));
                    assert(!has_entry(old_s, kv));
                    assert(entry_keys_unique(s)) by {
                        assert forall|a: int, b: int|
                            0 <= a < s.len() && 0 <= b < s.len() && a != b implies s[a].0@ != s[b].0@ by {
                            if a != n && b != n {
                                assert(s[a] == old_s[a] && s[b] == old_s[b]);
                            } else if a == n {
                                assert(s[b] == old_s[b]);
                            } else {
                                assert(s[a] == old_s[a]);
                            }
                        }
                    }
                    assert(entries_map(s) =~= entries_map(old_s).insert(kv, vv)) by {
                        assert forall|k: Seq<char>| #[trigger] entries_map(s).dom().contains(k)
                            <==> entries_map(old_s).insert(kv, vv).dom().contains(k) by {
                            if has_entry(old_s, k) {
                                let j = choose|j: int| 0 <= j < old_s.len() && old_s[j].0@ == k;
                                assert(s[j] == old_s[j]);
                            }
                            if k == kv {
                                assert(s[n].0@ == k);
                            }
                            if has_entry(s, k) && k != kv {
                                let j = choose|j: int| 0 <= j < s.len() && s[j].0@ == k;
                                assert(s[j] == old_s[j]);
                            }
                        }
                        assert forall|k: Seq<char>| #[trigger] entries_map(s).dom().contains(k)
                            implies entries_map(s)[k] == entries_map(old_s).insert(kv, vv)[k] by {
                            let j = choose|j: int| 0 <= j < s.len() && s[j].0@ == k;
                            if k != kv {
                                let j2 = choose|j: int| 0 <= j < old_s.len() && old_s[j].0@ == k;
                                assert(s[j2] == old_s[j2]);
                                assert(j == j2);
                            } else {
                                assert(s[n].0@ == k);
                                assert(j == n);
                            }
                        }
                    }
                }
            },
        }
        self.entries = entries;
    }

    /// Removes the value under `key`, if any.
    pub fn remove(&mut self, key: &str)
        ensures
            final(self)@ == old(self)@.remove(key@),
    {
        proof {
            use_type_invariant(&*self);
        }
        let ghost kv = key@;
        match self.find(key) {
            Some(i) => {
                let mut entries: Vec<(String, Value)> = Vec::new();
                std::mem::swap(&mut entries, &mut self.entries);
                let ghost old_s = entries@;
                let _gone = entries.remove(i);
                proof {
                    let s = entries@;
                    assert(s =~= old_s.remove(i as int));
                    assert(forall|a: int| 0 <= a < s.len() ==> #[trigger] s[a] == old_s[if a < i {
                        a
                    } else {
                        a + 1
                    }]);
                    assert(entry_keys_unique(s)) by {
                        assert forall|a: int, b: int|
                            0 <= a < s.len() && 0 <= b < s.len() && a != b implies s[a].0@ != s[b].0@ by {
                            let a2 = if a < i { a } else { a + 1 };
                            let b2 = if b < i { b } else { b + 1 };
                            assert(s[a] == old_s[a2] && s[b] == old_s[b2]);
                        }
                    }
                    assert(entries_map(s) =~= entries_map(old_s).remove(kv)) by {
                        assert forall|k: Seq<char>| #[trigger] entries_map(s).dom().contains(k)
                            <==> entries_map(old_s).remove(kv).dom().contains(k) by {
                            if has_entry(s, k) {
                                let j = choose|j: int| 0 <= j < s.len() && s[j].0@ == k;
                                let j2 = if j < i { j } else { j + 1 };
                                assert(s[j] == old_s[j2]);
                                assert(j2 != i);
                                assert(old_s[i as int].0@ == kv);
                            }
                            if has_entry(old_s, k) && k != kv {
                                let j = choose|j: int| 0 <= j < old_s.len() && old_s[j].0@ == k;
                                assert(j != i);
                                let j1 = if j < i { j } else { j - 1 };
                                assert(s[j1] == old_s[j]);
                            }
                        }
                        assert forall|k: Seq<char>| #[trigger] entries_map(s).dom().contains(k)
                            implies entries_map(s)[k] == entries_map(old_s).remove(kv)[k] by {
                            let j = choose|j: int| 0 <= j < s.len() && s[j].0@ == k;
                            let j2 = if j < i { j } else { j + 1 };
                            assert(s[j] == old_s[j2]);
                            let c = choose|c: int| 0 <= c < old_s.len() && old_s[c].0@ == k;
                            assert(c == j2);
                        }
                    }
                }
                self.entries = entries;
            },
            None => {
                assert(self@ =~= old(self)@.remove(kv));
            },
        }
    }

    /// Removes every value.
    pub fn clear(&mut self)
        ensures
            final(self)@ == Map::<Seq<char>, Value>::empty(),
    {
        self.entries = Vec::new();
        assert(self@ =~= Map::<Seq<char>, Value>::empty());
    }

    /// The boolean stored under `key`: `None` when nothing is stored there
    /// or the value is not a JSON boolean.
    pub fn get_bool(&self, key: &str) -> (r: Option<bool>)
        ensures
            !self@.dom().contains(key@) ==> r is None,
    {
        match self.get(key) {
            Some(v) => value_as_bool(&v),
            None => None,
        }
    }

    /// The text stored under `key`: `None` when nothing is stored there or
    /// the value is not a JSON string.
    pub fn get_string(&self, key: &str) -> (r: Option<String>)
        ensures
            !self@.dom().contains(key@) ==> r is None,
    {
        match self.get(key) {
            Some(v) => match value_as_str(&v) {
                Some(t) => Some(to_owned_string(t)),
                None => None,
            },
            None => None,
        }
    }
}

impl Default for StateStore {
    fn default() -> (r: Self)
        ensures
            r@ == Map::<Seq<char>, Value>::empty(),
    {
        StateStore::new()
    }
}

/// The settings by key. Listeners of changes are kept by the caller, which
/// tells them of each `set`.
pub struct SettingsService {
    settings: StateStore,
}

impl View for SettingsService {
    type V = Map<Seq<char>, Value>;

    closed spec fn view(&self) -> Map<Seq<char>, Value> {
        self.settings@
    }
}

impl SettingsService {
    /// No settings.
    pub fn new() -> (r: Self)
        ensures
            r@ == Map::<Seq<char>, Value>::empty(),
    {
        SettingsService { settings: StateStore::new() }
    }

    /// A copy of the setting `key`, if set.
    pub fn get(&self, key: &str) -> (r: Option<Value>)
        ensures
            match r {
                Some(v) => self@.dom().contains(key@) && v == self@[key@],
                None => !self@.dom().contains(key@),
            },
    {
        self.settings.get(key)
    }

    /// Sets `key` to `value`, replacing what was there.
    pub fn set(&mut self, key: &str, value: Value)
        ensures
            final(self)@ == old(self)@.insert(key@, value),
    {
        self.settings.set(key, value);
    }
}

impl Default for SettingsService {
    fn default() -> (r: Self)
        ensures
            r@ == Map::<Seq<char>, Value>::empty(),
    {
        SettingsService::new()
    }
}

} // verus!
