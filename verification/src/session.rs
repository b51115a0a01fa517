//! The per-visitor session store: the key/value capability that carries the
//! anti-forgery token from the initiation leg of the flow to the callback leg.

use vstd::prelude::*;
use crate::text::str_eq;

verus! {

/// Whether some entry of `entries` is filed under `key`.
spec fn has_key(entries: Seq<(String, String)>, key: Seq<char>) -> bool {
    exists|i: int| 0 <= i < entries.len() && (#[trigger] entries[i]).0@ == key
}

/// The position of an entry filed under `key`.
spec fn position_of(entries: Seq<(String, String)>, key: Seq<char>) -> int {
    choose|i: int| 0 <= i < entries.len() && (#[trigger] entries[i]).0@ == key
}

/// No two entries share a key.
spec fn keys_distinct(entries: Seq<(String, String)>) -> bool {
    forall|i: int, j: int|
        0 <= i < j < entries.len() ==> (#[trigger] entries[i]).0@ != (#[trigger] entries[j]).0@
}

/// The map that a list of entries with distinct keys stands for.
spec fn entries_map(entries: Seq<(String, String)>) -> Map<Seq<char>, Seq<char>> {
    Map::new(
        |key: Seq<char>| has_key(entries, key),
        |key: Seq<char>| entries[position_of(entries, key)].1@,
    )
}

/// One visitor's session values. At most one value is held per key.
pub struct SessionStore {
    entries: Vec<(String, String)>,
}

impl View for SessionStore {
    type V = Map<Seq<char>, Seq<char>>;

    closed spec fn view(&self) -> Map<Seq<char>, Seq<char>> {
        entries_map(self.entries@)
    }
}

impl SessionStore {
    #[verifier::type_invariant]
    spec fn distinct(self) -> bool {
        keys_distinct(self.entries@)
    }

    /// A session that holds nothing.
    pub fn new() -> (store: SessionStore)
        ensures
            store@ == Map::<Seq<char>, Seq<char>>::empty(),
    {
        let store = SessionStore { entries: Vec::new() };
        assert(store@ =~= Map::<Seq<char>, Seq<char>>::empty());
        store
    }

    fn find(&self, key: &str) -> (found: Option<usize>)
        ensures
            match found {
                Some(i) => i < self.entries@.len() && self.entries@[i as int].0@ == key@,
                None => !has_key(self.entries@, key@),
            },
    {
        let n: usize = self.entries.len();
        let mut i: usize = 0;
        while i < n
            invariant
                i <= n,
                n == self.entries@.len(),
                forall|j: int| 0 <= j < i ==> (#[trigger] self.entries@[j]).0@ != key@,
            decreases n - i,
        {
            if str_eq(self.entries[i].0.as_str(), key) {
                return Some(i);
            }
            i = i + 1;
        }
        None
    }

    /// The value filed under `key`, if there is one.
    pub fn get(&self, key: &str) -> (value: Option<String>)
        ensures
            match value {
                Some(v) => self@.contains_key(key@) && v@ == self@[key@],
                None => !self@.contains_key(key@),
            },
    {
        proof {
            use_type_invariant(self);
        }
        match self.find(key) {
            Some(i) => {
                assert(has_key(self.entries@, key@));
                Some(self.entries[i].1.clone())
            },
            None => None,
        }
    }

    /// Files `value` under `key`, in place of any value that was there.
    pub fn set(&mut self, key: &str, value: String)
        ensures
            final(self)@ == old(self)@.insert(key@, value@),
    {
        proof {
            use_type_invariant(&*self);
        }
        let ghost before = self.entries@;
        let found = self.find(key);
        let mut entries: Vec<(String, String)> = Vec::new();
        core::mem::swap(&mut self.entries, &mut entries);
        match found {
            Some(i) => {
                entries.set(i, (key.to_owned(), value));
                proof {
                    let after = entries@;
                    assert forall|k: Seq<char>| has_key(after, k) <==> has_key(before, k) by {
                        if has_key(before, k) {
                            let j = position_of(before, k);
                            assert(after[j].0@ == k);
                        }
                        if has_key(after, k) {
                            let j = position_of(after, k);
                            assert(before[j].0@ == k);
                        }
                    }
                    assert(after[i as int].0@ == key@);
                    assert(entries_map(after) =~= entries_map(before).insert(key@, value@));
                }
            },
            None => {
                entries.push((key.to_owned(), value));
                proof {
                    let after = entries@;
                    let last = before.len() as int;
                    assert(after[last].0@ == key@);
                    assert forall|k: Seq<char>| has_key(after, k) <==> (has_key(before, k) || k == key@) by {
                        if has_key(before, k) {
                            let j = position_of(before, k);
                            assert(after[j].0@ == k);
                        }
                        if has_key(after, k) && k != key@ {
                            let j = position_of(after, k);
                            assert(before[j].0@ == k);
                        }
                    }
                    assert(entries_map(after) =~= entries_map(before).insert(key@, value@));
                }
            },
        }
        core::mem::swap(&mut self.entries, &mut entries);
    }

    /// Drops the value filed under `key`, if there is one.
    pub fn remove(&mut self, key: &str)
        ensures
            final(self)@ == old(self)@.remove(key@),
    {
        proof {
            use_type_invariant(&*self);
        }
        let ghost before = self.entries@;
        let found = self.find(key);
        let mut entries: Vec<(String, String)> = Vec::new();
        core::mem::swap(&mut self.entries, &mut entries);
        match found {
            Some(i) => {
                let _ = entries.remove(i);
                proof {
                    let after = entries@;
                    assert forall|k: Seq<char>| has_key(after, k) <==> (has_key(before, k) && k != key@) by {
                        if has_key(before, k) && k != key@ {
                            let j = position_of(before, k);
                            if j < i {
                                assert(after[j].0@ == k);
                            } else {
                                assert(after[j - 1].0@ == k);
                            }
                        }
                        if has_key(after, k) {
                            let j = position_of(after, k);
                            if j < i {
                                assert(before[j].0@ == k);
                            } else {
                                assert(before[j + 1].0@ == k);
                            }
                        }
                    }
                    assert(entries_map(after) =~= entries_map(before).remove(key@));
                }
            },
            None => {
                assert(entries_map(before) =~= entries_map(before).remove(key@));
            },
        }
        core::mem::swap(&mut self.entries, &mut entries);
    }
}

} // verus!
