//! An in-process secret store: the fallback backend for platforms without a
//! native secure store, and the model against which the lifecycle policy is
//! verified end to end.
//!
//! The store is a list of `(name, value)` pairs with pairwise-distinct names;
//! its abstract view is the finite map from names to values.

use vstd::prelude::*;
use vstd::string::StringExecFns;

use crate::errors::StoreError;

verus! {

/// True when no two entries of `s` share a name.
pub open spec fn names_unique(s: Seq<(String, String)>) -> bool {
    forall|i: int, j: int| 0 <= i < j < s.len() ==> #[trigger] s[i].0@ != #[trigger] s[j].0@
}

/// True when some entry of `s` is named `k`.
pub open spec fn has_name(s: Seq<(String, String)>, k: Seq<char>) -> bool {
    exists|i: int| 0 <= i < s.len() && #[trigger] s[i].0@ == k
}

/// The value stored under `k`, taken from any entry named `k`.
pub open spec fn value_of(s: Seq<(String, String)>, k: Seq<char>) -> Seq<char> {
    let i = choose|i: int| 0 <= i < s.len() && #[trigger] s[i].0@ == k;
    s[i].1@
}

/// The mapping from names to values that `s` holds.
pub open spec fn entries_map(s: Seq<(String, String)>) -> Map<Seq<char>, Seq<char>> {
    Map::new(|k: Seq<char>| has_name(s, k), |k: Seq<char>| value_of(s, k))
}

/// An entry named `s[i].0` is in the map, under exactly the value `s[i].1`.
proof fn lemma_entries_map_index(s: Seq<(String, String)>, i: int)
    requires
        names_unique(s),
        0 <= i < s.len(),
    ensures
        entries_map(s).contains_key(s[i].0@),
        entries_map(s)[s[i].0@] == s[i].1@,
{
    assert(has_name(s, s[i].0@));
    let j = choose|j: int| 0 <= j < s.len() && #[trigger] s[j].0@ == s[i].0@;
    assert(j == i);
}

/// Removing the entry at `i` removes exactly its name from the map.
proof fn lemma_entries_map_remove(s: Seq<(String, String)>, i: int)
    requires
        names_unique(s),
        0 <= i < s.len(),
    ensures
        names_unique(s.remove(i)),
        !has_name(s.remove(i), s[i].0@),
        entries_map(s.remove(i)) == entries_map(s).remove(s[i].0@),
{
    let t = s.remove(i);
    s.remove_ensures(i);
    assert forall|a: int, b: int| 0 <= a < b < t.len() implies #[trigger] t[a].0@ != #[trigger] t[b].0@ by {
        let a0 = if a < i { a } else { a + 1 };
        let b0 = if b < i { b } else { b + 1 };
        assert(t[a] == s[a0]);
        assert(t[b] == s[b0]);
        assert(s[a0].0@ != s[b0].0@);
    }
    assert forall|j: int| 0 <= j < t.len() implies #[trigger] t[j].0@ != s[i].0@ by {
        let j0 = if j < i { j } else { j + 1 };
        assert(t[j] == s[j0]);
        if j0 < i {
            assert(s[j0].0@ != s[i].0@);
        } else {
            assert(s[i].0@ != s[j0].0@);
        }
    }
    assert forall|k: Seq<char>| #[trigger] has_name(t, k) implies has_name(s, k) && k != s[i].0@
        && value_of(t, k) == value_of(s, k) by {
        let j = choose|j: int| 0 <= j < t.len() && #[trigger] t[j].0@ == k;
        let j0 = if j < i { j } else { j + 1 };
        assert(t[j] == s[j0]);
        assert(has_name(s, k));
        lemma_entries_map_index(s, j0);
        let jt = choose|jt: int| 0 <= jt < t.len() && #[trigger] t[jt].0@ == k;
        let jt0 = if jt < i { jt } else { jt + 1 };
        assert(t[jt] == s[jt0]);
        assert(jt0 == j0);
        assert(value_of(t, k) == t[jt].1@);
        assert(value_of(s, k) == s[j0].1@);
    }
    assert forall|k: Seq<char>| has_name(s, k) && k != s[i].0@ implies #[trigger] has_name(t, k) by {
        let j0 = choose|j0: int| 0 <= j0 < s.len() && #[trigger] s[j0].0@ == k;
        let j = if j0 < i { j0 } else { j0 - 1 };
        assert(t[j] == s[j0]);
        assert(t[j].0@ == k);
    }
    assert(entries_map(t) =~= entries_map(s).remove(s[i].0@));
}

/// Appending an entry under a fresh name inserts exactly that pair.
proof fn lemma_entries_map_push(s: Seq<(String, String)>, kv: (String, String))
    requires
        names_unique(s),
        !has_name(s, kv.0@),
    ensures
        names_unique(s.push(kv)),
        entries_map(s.push(kv)) == entries_map(s).insert(kv.0@, kv.1@),
{
    let t = s.push(kv);
    assert forall|a: int, b: int| 0 <= a < b < t.len() implies #[trigger] t[a].0@ != #[trigger] t[b].0@ by {
        if b < s.len() {
            assert(t[a] == s[a]);
            assert(t[b] == s[b]);
        } else {
            assert(t[a] == s[a]);
            assert(t[b] == kv);
            assert(s[a].0@ != kv.0@);
        }
    }
    assert forall|k: Seq<char>| #[trigger] has_name(t, k) implies entries_map(s).insert(
        kv.0@,
        kv.1@,
    ).contains_key(k) by {
        let j = choose|j: int| 0 <= j < t.len() && #[trigger] t[j].0@ == k;
        if j < s.len() {
            assert(t[j] == s[j]);
            assert(has_name(s, k));
        } else {
            assert(t[j] == kv);
        }
    }
    assert forall|k: Seq<char>| #[trigger] has_name(t, k) implies value_of(t, k)
        == entries_map(s).insert(kv.0@, kv.1@)[k] by {
        lemma_entries_map_push_value(s, kv, k);
    }
    assert forall|k: Seq<char>| entries_map(s).insert(kv.0@, kv.1@).contains_key(k) implies #[trigger] has_name(
        t,
        k,
    ) by {
        if k == kv.0@ {
            assert(t[s.len() as int] == kv);
            assert(t[s.len() as int].0@ == k);
        } else {
            let j = choose|j: int| 0 <= j < s.len() && #[trigger] s[j].0@ == k;
            assert(t[j] == s[j]);
            assert(t[j].0@ == k);
        }
    }
    assert(entries_map(t) =~= entries_map(s).insert(kv.0@, kv.1@));
}

/// The value under any name of `s.push(kv)` is the inserted one for `kv.0`
/// and the old one otherwise.
proof fn lemma_entries_map_push_value(s: Seq<(String, String)>, kv: (String, String), k: Seq<char>)
    requires
        names_unique(s),
        !has_name(s, kv.0@),
        has_name(s.push(kv), k),
    ensures
        value_of(s.push(kv), k) == entries_map(s).insert(kv.0@, kv.1@)[k],
{
    let t = s.push(kv);
    assert forall|a: int, b: int| 0 <= a < b < t.len() implies #[trigger] t[a].0@ != #[trigger] t[b].0@ by {
        if b < s.len() {
            assert(t[a] == s[a]);
            assert(t[b] == s[b]);
        } else {
            assert(t[a] == s[a]);
            assert(t[b] == kv);
            assert(s[a].0@ != kv.0@);
        }
    }
    let j = choose|j: int| 0 <= j < t.len() && #[trigger] t[j].0@ == k;
    lemma_entries_map_index(t, j);
    if j < s.len() {
        assert(t[j] == s[j]);
        assert(k != kv.0@);
        assert(has_name(s, k));
        lemma_entries_map_index(s, j);
    } else {
        assert(t[j] == kv);
        assert(k == kv.0@);
    }
}

/// The in-process fallback secret store.
pub struct MemStore {
    entries: Vec<(String, String)>,
}

impl View for MemStore {
    type V = Map<Seq<char>, Seq<char>>;

    closed spec fn view(&self) -> Map<Seq<char>, Seq<char>> {
        entries_map(self.entries@)
    }
}

impl MemStore {
    /// Names are pairwise distinct: one value per key.
    pub closed spec fn wf(self) -> bool {
        names_unique(self.entries@)
    }

    /// Creates an empty store.
    pub fn new() -> (r: MemStore)
        ensures
            r.wf(),
            r@ == Map::<Seq<char>, Seq<char>>::empty(),
    {
        let r = MemStore { entries: Vec::new() };
        proof {
            assert(r@ =~= Map::<Seq<char>, Seq<char>>::empty());
        }
        r
    }

    /// The index of the entry named `name`, if one exists.
    fn find_index(&self, name: &str) -> (r: Option<usize>)
        requires
            self.wf(),
        ensures
            match r {
                Some(i) => i < self.entries@.len() && self.entries@[i as int].0@ == name@,
                None => !self@.contains_key(name@),
            },
    {
        let key = String::from_str(name);
        let n = self.entries.len();
        let mut i: usize = 0;
        while i < n
            invariant
                n == self.entries@.len(),
                i <= n,
                key@ == name@,
                forall|j: int| 0 <= j < i ==> #[trigger] self.entries@[j].0@ != name@,
            decreases n - i,
        {
            if self.entries[i].0 == key {
                return Some(i);
            }
            i += 1;
        }
        proof {
            assert(!has_name(self.entries@, name@));
        }
        None
    }

    /// Reads the value stored under `name`; read never mutates.
    pub fn read(&self, name: &str) -> (r: Result<String, StoreError>)
        requires
            self.wf(),
        ensures
            match r {
                Ok(v) => self@.contains_key(name@) && v@ == self@[name@],
                Err(e) => !self@.contains_key(name@) && e matches StoreError::NotFound,
            },
    {
        match self.find_index(name) {
            Some(i) => {
                proof {
                    lemma_entries_map_index(self.entries@, i as int);
                }
                Ok(self.entries[i].1.clone())
            },
            None => Err(StoreError::NotFound),
        }
    }

    /// Writes `value` under `name`, overwriting unconditionally; this backend
    /// never fails. Callers wanting overwrite protection must probe first.
    pub fn write(&mut self, name: &str, value: &str) -> (r: Result<(), StoreError>)
        requires
            old(self).wf(),
        ensures
            final(self).wf(),
            final(self)@ == old(self)@.insert(name@, value@),
            r is Ok,
    {
        let ghost m0 = self@;
        match self.find_index(name) {
            Some(i) => {
                proof {
                    lemma_entries_map_remove(self.entries@, i as int);
                }
                let _ = self.entries.remove(i);
            },
            None => {
            },
        }
        let ghost mid = self.entries@;
        proof {
            assert(!has_name(mid, name@));
        }
        let pair = (String::from_str(name), String::from_str(value));
        proof {
            lemma_entries_map_push(mid, pair);
        }
        self.entries.push(pair);
        proof {
            assert(final(self)@ =~= m0.insert(name@, value@));
        }
        Ok(())
    }

    /// Erases the entry named `name`, failing when there is none.
    pub fn erase(&mut self, name: &str) -> (r: Result<(), StoreError>)
        requires
            old(self).wf(),
        ensures
            final(self).wf(),
            match r {
                Ok(_) => old(self)@.contains_key(name@) && final(self)@ == old(self)@.remove(
                    name@,
                ),
                Err(e) => !old(self)@.contains_key(name@) && final(self)@ == old(self)@
                    && e matches StoreError::NotFound,
            },
    {
        match self.find_index(name) {
            Some(i) => {
                proof {
                    lemma_entries_map_index(self.entries@, i as int);
                    lemma_entries_map_remove(self.entries@, i as int);
                }
                let _ = self.entries.remove(i);
                Ok(())
            },
            None => Err(StoreError::NotFound),
        }
    }
}

} // verus!
