use vstd::prelude::*;

use crate::json::str_eq;
use crate::text::views;

verus! {

/// The value last recorded for `key` among the entries.
pub open spec fn lookup<V>(s: Seq<(String, V)>, key: Seq<char>) -> Option<V>
    decreases s.len(),
{
    if s.len() == 0 {
        None
    } else if s.last().0@ == key {
        Some(s.last().1)
    } else {
        lookup(s.drop_last(), key)
    }
}

/// A map from texts to values, kept as a list in which a later entry wins.
#[derive(Debug, Clone)]
pub struct KeyedTable<V> {
    entries: Vec<(String, V)>,
}

impl<V> View for KeyedTable<V> {
    type V = Map<Seq<char>, V>;

    closed spec fn view(&self) -> Map<Seq<char>, V> {
        Map::new(|k: Seq<char>| lookup(self.entries@, k) is Some, |k: Seq<char>| lookup(self.entries@, k)->0)
    }
}

impl<V: Copy> KeyedTable<V> {
    pub fn new() -> (r: Self)
        ensures
            r@ == Map::<Seq<char>, V>::empty(),
    {
        let r = KeyedTable { entries: Vec::new() };
        assert(r@ =~= Map::<Seq<char>, V>::empty());
        r
    }

    pub fn get(&self, key: &str) -> (r: Option<V>)
        ensures
            r == (if self@.contains_key(key@) { Some(self@[key@]) } else { None::<V> }),
    {
        let mut i = self.entries.len();
        assert(self.entries@.take(self.entries@.len() as int) == self.entries@);
        while i > 0
            invariant
                i <= self.entries.len(),
                lookup(self.entries@, key@) == lookup(self.entries@.take(i as int), key@),
            decreases i,
        {
            let ghost t = self.entries@.take(i as int);
            assert(t.last() == self.entries@[i - 1]);
            assert(t.drop_last() == self.entries@.take(i - 1));
            if str_eq(self.entries[i - 1].0.as_str(), key) {
                return Some(self.entries[i - 1].1);
            }
            i -= 1;
        }
        assert(self.entries@.take(self.entries@.len() as int) == self.entries@);
        None
    }

    /// Drops every entry of `key`, giving back the value it had.
    pub fn remove(&mut self, key: &str) -> (r: Option<V>)
        ensures
            r == (if old(self)@.contains_key(key@) { Some(old(self)@[key@]) } else { None::<V> }),
            final(self)@ == old(self)@.remove(key@),
    {
        let previous = self.get(key);
        let mut kept: Vec<(String, V)> = Vec::new();
        let mut i: usize = 0;
        while i < self.entries.len()
            invariant
                i <= self.entries.len(),
                forall|k: Seq<char>| lookup(kept@, k) == (if k == key@ { None } else { lookup(self.entries@.take(i as int), k) }),
            decreases self.entries.len() - i,
        {
            let ghost t = self.entries@.take(i + 1);
            let ghost kept_before = kept@;
            assert(t.last() == self.entries@[i as int]);
            assert(t.drop_last() == self.entries@.take(i as int));
            if !str_eq(self.entries[i].0.as_str(), key) {
                let entry = (self.entries[i].0.clone(), self.entries[i].1);
                kept.push(entry);
                proof {
                    assert(kept@.last() == entry);
                    assert(kept@.drop_last() == kept_before);
                    assert(entry.0@ == self.entries@[i as int].0@);
                    assert(entry.0@ != key@);
                    assert forall|k: Seq<char>| lookup(kept@, k) == (if k == key@ { None } else { lookup(t, k) }) by {
                        assert(lookup(kept@, k) == (if entry.0@ == k { Some(entry.1) } else { lookup(kept_before, k) }));
                        assert(lookup(t, k) == (if entry.0@ == k { Some(entry.1) } else { lookup(self.entries@.take(i as int), k) }));
                    }
                }
            } else {
                proof {
                    assert forall|k: Seq<char>| lookup(kept@, k) == (if k == key@ { None } else { lookup(t, k) }) by {
                    }
                }
            }
            i += 1;
        }
        assert(self.entries@.take(self.entries@.len() as int) == self.entries@);
        let ghost before = self@;
        self.entries = kept;
        assert(self@ =~= before.remove(key@));
        previous
    }

    /// Records `value` for `key`.
    pub fn insert(&mut self, key: &str, value: V)
        ensures
            final(self)@ == old(self)@.insert(key@, value),
    {
        let ghost before = self@;
        self.remove(key);
        let ghost removed = self.entries@;
        let ghost after_remove = self@;
        assert(after_remove == before.remove(key@));
        self.entries.push((key.to_owned(), value));
        proof {
            assert(self.entries@.drop_last() == removed);
            assert forall|k: Seq<char>| lookup(self.entries@, k) == (if k == key@ { Some(value) } else { lookup(removed, k) }) by {
            }
            assert forall|k: Seq<char>| #[trigger] after_remove.contains_key(k) == (lookup(removed, k) is Some) by {}
            assert forall|k: Seq<char>| after_remove.contains_key(k) implies #[trigger] after_remove[k] == lookup(removed, k)->0 by {}
        }
        assert forall|k: Seq<char>| #[trigger] self@.contains_key(k) == before.insert(key@, value).contains_key(k) by {
            if k != key@ {
                assert(after_remove.contains_key(k) == before.contains_key(k));
            }
        }
        assert forall|k: Seq<char>| #[trigger] self@.contains_key(k) implies self@[k] == before.insert(key@, value)[k] by {
            if k != key@ {
                assert(after_remove.contains_key(k));
                assert(after_remove[k] == before[k]);
            }
        }
        assert(self@ =~= before.insert(key@, value));
    }

    pub fn clear(&mut self)
        ensures
            final(self)@ == Map::<Seq<char>, V>::empty(),
    {
        self.entries = Vec::new();
        assert(self@ =~= Map::<Seq<char>, V>::empty());
    }
    /// Keeps only the entries whose key is one of `keys`.
    pub fn retain_keys(&mut self, keys: &Vec<String>)
        ensures
            forall|k: Seq<char>| #[trigger] final(self)@.contains_key(k)
                == (old(self)@.contains_key(k) && views(keys@).contains(k)),
            forall|k: Seq<char>| #[trigger] final(self)@.contains_key(k) ==> final(self)@[k] == old(self)@[k],
    {
        let mut kept: Vec<(String, V)> = Vec::new();
        let mut i: usize = 0;
        while i < self.entries.len()
            invariant
                i <= self.entries.len(),
                forall|k: Seq<char>| lookup(kept@, k)
                    == (if views(keys@).contains(k) { lookup(self.entries@.take(i as int), k) } else { None }),
            decreases self.entries.len() - i,
        {
            let ghost t = self.entries@.take(i + 1);
            let ghost kept_before = kept@;
            assert(t.last() == self.entries@[i as int]);
            assert(t.drop_last() == self.entries@.take(i as int));
            if contains_text(keys, self.entries[i].0.as_str()) {
                let entry = (self.entries[i].0.clone(), self.entries[i].1);
                kept.push(entry);
                proof {
                    assert(kept@.last() == entry);
                    assert(kept@.drop_last() == kept_before);
                    assert forall|k: Seq<char>| lookup(kept@, k)
                        == (if views(keys@).contains(k) { lookup(t, k) } else { None }) by {
                        assert(lookup(kept@, k) == (if entry.0@ == k { Some(entry.1) } else { lookup(kept_before, k) }));
                        assert(lookup(t, k) == (if entry.0@ == k { Some(entry.1) } else { lookup(self.entries@.take(i as int), k) }));
                    }
                }
            } else {
                proof {
                    assert forall|k: Seq<char>| lookup(kept@, k)
                        == (if views(keys@).contains(k) { lookup(t, k) } else { None }) by {
                        assert(lookup(t, k) == (if t.last().0@ == k { Some(t.last().1) } else { lookup(self.entries@.take(i as int), k) }));
                    }
                }
            }
            i += 1;
        }
        assert(self.entries@.take(self.entries@.len() as int) == self.entries@);
        self.entries = kept;
    }
}

/// Whether `key` is one of the texts.
pub fn contains_text(items: &Vec<String>, key: &str) -> (r: bool)
    ensures
        r == views(items@).contains(key@),
{
    let mut i: usize = 0;
    while i < items.len()
        invariant
            i <= items.len(),
            forall|j: int| 0 <= j < i ==> #[trigger] views(items@)[j] != key@,
        decreases items.len() - i,
    {
        if str_eq(items[i].as_str(), key) {
            assert(views(items@)[i as int] == key@);
            return true;
        }
        i += 1;
    }
    false
}


} // verus!
