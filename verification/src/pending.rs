//! Requests forwarded to Monitor that wait for its reply, by request id.
use vstd::prelude::*;
use crate::registry::ConnId;
use crate::text::str_eq;

verus! {

/// The client connection that sent each forwarded request, by request id.
/// The entries are kept in a vector whose ids are distinct (a type
/// invariant), so that the view is a map from id to connection; std's hash map
/// offers no model of `String` keys that a proof could use.
pub struct PendingRequests {
    entries: Vec<(String, ConnId)>,
}

pub open spec fn keys_distinct(s: Seq<(String, ConnId)>) -> bool {
    forall|i: int, j: int| 0 <= i < s.len() && 0 <= j < s.len() && i != j ==> #[trigger] s[i].0@ != #[trigger] s[j].0@
}

pub open spec fn has_key(s: Seq<(String, ConnId)>, k: Seq<char>) -> bool {
    exists|i: int| 0 <= i < s.len() && #[trigger] s[i].0@ == k
}

pub open spec fn key_index(s: Seq<(String, ConnId)>, k: Seq<char>) -> int {
    choose|i: int| 0 <= i < s.len() && #[trigger] s[i].0@ == k
}

pub open spec fn entries_map(s: Seq<(String, ConnId)>) -> Map<Seq<char>, ConnId> {
    Map::new(|k: Seq<char>| has_key(s, k), |k: Seq<char>| s[key_index(s, k)].1)
}

proof fn lemma_value_at(s: Seq<(String, ConnId)>, i: int)
    requires
        keys_distinct(s),
        0 <= i < s.len(),
    ensures
        entries_map(s).contains_key(s[i].0@),
        entries_map(s)[s[i].0@] == s[i].1,
{
    let k = s[i].0@;
    assert(has_key(s, k));
    let j = key_index(s, k);
    assert(s[j].0@ == k);
}

impl View for PendingRequests {
    type V = Map<Seq<char>, ConnId>;

    closed spec fn view(&self) -> Map<Seq<char>, ConnId> {
        entries_map(self.entries@)
    }
}

impl PendingRequests {
    #[verifier::type_invariant]
    closed spec fn distinct(&self) -> bool {
        keys_distinct(self.entries@)
    }

    pub fn new() -> (r: Self)
        ensures
            r@ == Map::<Seq<char>, ConnId>::empty(),
    {
        let r = PendingRequests { entries: Vec::new() };
        assert(r@ =~= Map::<Seq<char>, ConnId>::empty());
        r
    }

    fn find(&self, key: &str) -> (r: Option<usize>)
        ensures
            match r {
                Some(i) => i < self.entries@.len() && self.entries@[i as int].0@ == key@,
                None => !has_key(self.entries@, key@),
            },
    {
        let mut i: usize = 0;
        while i < self.entries.len()
            invariant
                0 <= i <= self.entries@.len(),
                forall|k: int| 0 <= k < i ==> #[trigger] self.entries@[k].0@ != key@,
            decreases self.entries.len() - i,
        {
            if str_eq(self.entries[i].0.as_str(), key) {
                return Some(i);
            }
            i = i + 1;
        }
        None
    }

    /// Records that the request `key` came from `conn`, replacing any earlier
    /// request with that id.
    pub fn insert(&mut self, key: String, conn: ConnId)
        ensures
            final(self)@ == old(self)@.insert(key@, conn),
    {
        proof {
            use_type_invariant(&*self);
        }
        let ghost old_entries = self.entries@;
        match self.find(key.as_str()) {
            Some(i) => {
                let mut entries: Vec<(String, ConnId)> = Vec::new();
                std::mem::swap(&mut entries, &mut self.entries);
                entries.set(i, (key, conn));
                let ghost ne = entries@;
                assert(ne =~= old_entries.update(i as int, ne[i as int]));
                assert(keys_distinct(ne));
                self.entries = entries;
                assert forall|k: Seq<char>| #[trigger] self@.contains_key(k) == old(self)@.insert(key@, conn).contains_key(k) by {
                    if has_key(old_entries, k) {
                        let j = key_index(old_entries, k);
                        assert(ne[j].0@ == k);
                    }
                    if has_key(ne, k) {
                        let j = key_index(ne, k);
                        if j != i {
                            assert(old_entries[j].0@ == k);
                        }
                    }
                }
                assert forall|k: Seq<char>| self@.contains_key(k) implies #[trigger] self@[k] == old(self)@.insert(key@, conn)[k] by {
                    let j = key_index(ne, k);
                    lemma_value_at(ne, j);
                    if j != i {
                        lemma_value_at(old_entries, j);
                    }
                }
                assert(self@ =~= old(self)@.insert(key@, conn));
            },
            None => {
                let mut entries: Vec<(String, ConnId)> = Vec::new();
                std::mem::swap(&mut entries, &mut self.entries);
                let ghost kv = key@;
                entries.push((key, conn));
                let ghost ne = entries@;
                assert(keys_distinct(ne)) by {
                    assert forall|a: int, b: int| 0 <= a < ne.len() && 0 <= b < ne.len() && a != b implies #[trigger] ne[a].0@ != #[trigger] ne[b].0@ by {
                        if a == ne.len() - 1 {
                            assert(old_entries[b].0@ == ne[b].0@);
                        } else if b == ne.len() - 1 {
                            assert(old_entries[a].0@ == ne[a].0@);
                        }
                    }
                }
                self.entries = entries;
                assert forall|k: Seq<char>| #[trigger] self@.contains_key(k) == old(self)@.insert(kv, conn).contains_key(k) by {
                    if has_key(old_entries, k) {
                        let j = key_index(old_entries, k);
                        assert(ne[j].0@ == k);
                    }
                    if k == kv {
                        assert(ne[ne.len() - 1].0@ == k);
                    }
                    if has_key(ne, k) {
                        let j = key_index(ne, k);
                        if j < old_entries.len() {
                            assert(old_entries[j].0@ == k);
                        }
                    }
                }
                assert forall|k: Seq<char>| self@.contains_key(k) implies #[trigger] self@[k] == old(self)@.insert(kv, conn)[k] by {
                    let j = key_index(ne, k);
                    lemma_value_at(ne, j);
                    if j < old_entries.len() {
                        lemma_value_at(old_entries, j);
                    }
                }
                assert(self@ =~= old(self)@.insert(kv, conn));
            },
        }
    }

    /// Takes out the request `key`, giving back the connection it came from.
    pub fn remove(&mut self, key: &str) -> (r: Option<ConnId>)
        ensures
            final(self)@ == old(self)@.remove(key@),
            r == (if old(self)@.contains_key(key@) { Some(old(self)@[key@]) } else { None }),
    {
        proof {
            use_type_invariant(&*self);
        }
        let ghost old_entries = self.entries@;
        match self.find(key) {
            Some(i) => {
                let mut entries: Vec<(String, ConnId)> = Vec::new();
                std::mem::swap(&mut entries, &mut self.entries);
                let (_, conn) = entries.remove(i);
                let ghost ne = entries@;
                assert(ne =~= old_entries.remove(i as int));
                proof {
                    lemma_value_at(old_entries, i as int);
                }
                assert(keys_distinct(ne)) by {
                    assert forall|a: int, b: int| 0 <= a < ne.len() && 0 <= b < ne.len() && a != b implies #[trigger] ne[a].0@ != #[trigger] ne[b].0@ by {
                        let oa = if a < i { a } else { a + 1 };
                        let ob = if b < i { b } else { b + 1 };
                        assert(ne[a] == old_entries[oa]);
                        assert(ne[b] == old_entries[ob]);
                    }
                }
                self.entries = entries;
                assert forall|k: Seq<char>| #[trigger] self@.contains_key(k) == old(self)@.remove(key@).contains_key(k) by {
                    if has_key(old_entries, k) && k != key@ {
                        let j = key_index(old_entries, k);
                        assert(j != i);
                        let nj = if j < i { j } else { j - 1 };
                        assert(ne[nj].0@ == k);
                    }
                    if has_key(ne, k) {
                        let j = key_index(ne, k);
                        let oj = if j < i { j } else { j + 1 };
                        assert(old_entries[oj].0@ == k);
                    }
                }
                assert forall|k: Seq<char>| self@.contains_key(k) implies #[trigger] self@[k] == old(self)@.remove(key@)[k] by {
                    let j = key_index(ne, k);
                    lemma_value_at(ne, j);
                    let oj = if j < i { j } else { j + 1 };
                    assert(old_entries[oj] == ne[j]);
                    lemma_value_at(old_entries, oj);
                }
                assert(self@ =~= old(self)@.remove(key@));
                Some(conn)
            },
            None => {
                assert(self@ =~= old(self)@.remove(key@));
                None
            },
        }
    }

    /// Drops every request that came from `conn`.
    pub fn retain_other_than(&mut self, conn: ConnId)
        ensures
            final(self)@ == Map::new(
                |k: Seq<char>| old(self)@.contains_key(k) && old(self)@[k] != conn,
                |k: Seq<char>| old(self)@[k],
            ),
    {
        proof {
            use_type_invariant(&*self);
        }
        let ghost old_entries = self.entries@;
        let ghost target = Map::new(
            |k: Seq<char>| old(self)@.contains_key(k) && old(self)@[k] != conn,
            |k: Seq<char>| old(self)@[k],
        );
        let mut entries: Vec<(String, ConnId)> = Vec::new();
        std::mem::swap(&mut entries, &mut self.entries);
        let mut kept: Vec<(String, ConnId)> = Vec::new();
        let ghost mut from: Seq<int> = Seq::empty();
        let mut i: usize = 0;
        while i < entries.len()
            invariant
                0 <= i <= entries@.len(),
                entries@ == old_entries,
                keys_distinct(old_entries),
                kept@.len() == from.len(),
                forall|a: int| 0 <= a < from.len() ==> 0 <= #[trigger] from[a] < i && kept@[a] == old_entries[from[a]],
                forall|a: int, b: int| 0 <= a < b < from.len() ==> #[trigger] from[a] < #[trigger] from[b],
                forall|j: int| 0 <= j < i && old_entries[j].1 != conn ==> exists|a: int| 0 <= a < from.len() && #[trigger] from[a] == j,
                forall|a: int| 0 <= a < from.len() ==> #[trigger] kept@[a].1 != conn,
            decreases entries.len() - i,
        {
            if entries[i].1 != conn {
                kept.push((entries[i].0.clone(), entries[i].1));
                proof {
                    let old_from = from;
                    from = from.push(i as int);
                    assert forall|j: int| 0 <= j < i + 1 && old_entries[j].1 != conn implies exists|a: int| 0 <= a < from.len() && #[trigger] from[a] == j by {
                        if j == i {
                            assert(from[from.len() - 1] == j);
                        } else {
                            let a = choose|a: int| 0 <= a < old_from.len() && #[trigger] old_from[a] == j;
                            assert(from[a] == j);
                        }
                    }
                }
            }
            i = i + 1;
        }
        let ghost ke = kept@;
        assert(keys_distinct(ke)) by {
            assert forall|a: int, b: int| 0 <= a < ke.len() && 0 <= b < ke.len() && a != b implies #[trigger] ke[a].0@ != #[trigger] ke[b].0@ by {
                if a < b {
                    assert(from[a] < from[b]);
                } else {
                    assert(from[b] < from[a]);
                }
            }
        }
        self.entries = kept;
        assert forall|k: Seq<char>| #[trigger] self@.contains_key(k) == target.contains_key(k) by {
            if has_key(ke, k) {
                let a = key_index(ke, k);
                lemma_value_at(old_entries, from[a]);
                lemma_value_at(ke, a);
            }
            if target.contains_key(k) {
                let j = key_index(old_entries, k);
                lemma_value_at(old_entries, j);
                let a = choose|a: int| 0 <= a < from.len() && #[trigger] from[a] == j;
                assert(ke[a].0@ == k);
            }
        }
        assert forall|k: Seq<char>| self@.contains_key(k) implies #[trigger] self@[k] == target[k] by {
            let a = key_index(ke, k);
            lemma_value_at(ke, a);
            lemma_value_at(old_entries, from[a]);
        }
        assert(self@ =~= target);
    }
}

} // verus!
