//! A decoded record: an ordered map from field names to text values.

use vstd::prelude::*;

verus! {

/// The fields of one event, in insertion order, with distinct names.
#[derive(Debug, Clone)]
pub struct LogEvent {
    fields: Vec<(String, String)>,
}

impl LogEvent {
    /// Field names are distinct.
    pub closed spec fn wf(&self) -> bool {
        forall|i: int, j: int|
            0 <= i < j < self.fields@.len() ==> self.fields@[i].0@ != self.fields@[j].0@
    }

    closed spec fn has_at(&self, k: Seq<char>, i: int) -> bool {
        0 <= i < self.fields@.len() && self.fields@[i].0@ == k
    }

    closed spec fn index_of(&self, k: Seq<char>) -> int {
        choose|i: int| self.has_at(k, i)
    }

    /// The field names, in insertion order.
    pub closed spec fn names(&self) -> Seq<Seq<char>> {
        self.fields@.map_values(|f: (String, String)| f.0@)
    }

    proof fn lemma_index_unique(&self, k: Seq<char>, i: int)
        requires
            self.wf(),
            self.has_at(k, i),
        ensures
            self.index_of(k) == i,
    {
        let j = self.index_of(k);
        assert(self.has_at(k, j));
    }

    pub fn new() -> (r: LogEvent)
        ensures
            r.wf(),
            r@ == Map::<Seq<char>, Seq<char>>::empty(),
    {
        let r = LogEvent { fields: Vec::new() };
        assert(r@ =~= Map::<Seq<char>, Seq<char>>::empty());
        r
    }

    /// Sets `key` to `value`, in place when the field exists, else at the end.
    pub fn insert(&mut self, key: String, value: String)
        requires
            old(self).wf(),
        ensures
            final(self).wf(),
            final(self)@ == old(self)@.insert(key@, value@),
    {
        let ghost before = *self;
        let mut i: usize = 0;
        while i < self.fields.len()
            invariant
                *self == before,
                before == *old(self),
                before.wf(),
                0 <= i <= self.fields@.len(),
                forall|j: int| 0 <= j < i ==> self.fields@[j].0@ != key@,
            decreases self.fields@.len() - i,
        {
            if self.fields[i].0 == key {
                let ghost kv = key@;
                let ghost vv = value@;
                self.fields.set(i, (key, value));
                proof {
                    assert(self.wf());
                    assert(self.has_at(kv, i as int));
                    self.lemma_index_unique(kv, i as int);
                    assert(self@.contains_key(kv));
                    assert(self@[kv] == vv);
                    assert forall|k: Seq<char>| k != kv && #[trigger] before@.contains_key(k) implies
                        self@.contains_key(k) && self@[k] == before@[k] by {
                        let j = before.index_of(k);
                        assert(before.has_at(k, j));
                        assert(self.has_at(k, j));
                        self.lemma_index_unique(k, j);
                    }
                    assert forall|k: Seq<char>| #[trigger] self@.contains_key(k) && k != kv implies
                        before@.contains_key(k) by {
                        let j = self.index_of(k);
                        assert(self.has_at(k, j));
                        assert(before.has_at(k, j));
                    }
                    assert(self@ =~= before@.insert(kv, vv));
                }
                return;
            }
            i += 1;
        }
        let ghost kv = key@;
        let ghost vv = value@;
        self.fields.push((key, value));
        proof {
            let n = before.fields@.len() as int;
            assert(self.wf());
            assert(self.has_at(kv, n));
            self.lemma_index_unique(kv, n);
            assert(self@.contains_key(kv));
            assert(self@[kv] == vv);
            assert forall|k: Seq<char>| k != kv && #[trigger] before@.contains_key(k) implies
                self@.contains_key(k) && self@[k] == before@[k] by {
                let j = before.index_of(k);
                assert(before.has_at(k, j));
                assert(self.has_at(k, j));
                self.lemma_index_unique(k, j);
            }
            assert forall|k: Seq<char>| #[trigger] self@.contains_key(k) && k != kv implies
                before@.contains_key(k) by {
                let j = self.index_of(k);
                assert(self.has_at(k, j));
                assert(j != n);
                assert(before.has_at(k, j));
            }
            assert(self@ =~= before@.insert(kv, vv));
        }
    }

    /// The value of the field `key`, if there is one.
    pub fn get(&self, key: &String) -> (r: Option<String>)
        requires
            self.wf(),
        ensures
            r.is_some() == self@.contains_key(key@),
            r matches Some(v) ==> self@.contains_key(key@) && v@ == self@[key@],
    {
        let mut i: usize = 0;
        while i < self.fields.len()
            invariant
                self.wf(),
                0 <= i <= self.fields@.len(),
                forall|j: int| 0 <= j < i ==> self.fields@[j].0@ != key@,
            decreases self.fields@.len() - i,
        {
            if self.fields[i].0 == *key {
                proof {
                    assert(self.has_at(key@, i as int));
                }
                proof {
                    self.lemma_index_unique(key@, i as int);
                }
                return Some(self.fields[i].1.clone());
            }
            i += 1;
        }
        None
    }

    /// Number of fields.
    pub fn len(&self) -> (r: usize)
        requires
            self.wf(),
        ensures
            r == self@.len(),
    {
        proof {
            self.lemma_len();
        }
        self.fields.len()
    }

    proof fn lemma_len(&self)
        requires
            self.wf(),
        ensures
            self@.dom().finite(),
            self@.len() == self.fields@.len(),
    {
        let names = self.names();
        assert(names.no_duplicates()) by {
            assert forall|i: int, j: int| 0 <= i < names.len() && 0 <= j < names.len() && i != j
                implies names[i] != names[j] by {
                if i < j {
                } else {
                }
            }
        }
        assert(self@.dom() =~= names.to_set()) by {
            assert forall|k: Seq<char>| self@.dom().contains(k) implies names.to_set().contains(k) by {
                let j = self.index_of(k);
                assert(names[j] == k);
            }
            assert forall|k: Seq<char>| names.to_set().contains(k) implies self@.dom().contains(k) by {
                let j = choose|j: int| 0 <= j < names.len() && names[j] == k;
                assert(self.has_at(k, j));
            }
        }
        names.unique_seq_to_set();
    }
}

impl View for LogEvent {
    type V = Map<Seq<char>, Seq<char>>;

    closed spec fn view(&self) -> Map<Seq<char>, Seq<char>> {
        Map::new(
            |k: Seq<char>| exists|i: int| self.has_at(k, i),
            |k: Seq<char>| self.fields@[self.index_of(k)].1@,
        )
    }
}

} // verus!
