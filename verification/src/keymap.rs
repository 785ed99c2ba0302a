//! A small association map from entity keys to values, viewed as a
//! mathematical `Map<u32, V>`.
//!
//! The binding table keeps four of these, one per resource kind. Entries are
//! held in insertion order, which gives the table its stable walk order; the
//! well-formedness invariant keeps the keys distinct.

use vstd::prelude::*;

verus! {

/// The map described by an entry sequence: later entries win.
pub open spec fn map_of<V>(s: Seq<(u32, V)>) -> Map<u32, V>
    decreases s.len(),
{
    if s.len() == 0 {
        Map::empty()
    } else {
        map_of(s.drop_last()).insert(s.last().0, s.last().1)
    }
}

/// No key occurs twice in the entry sequence.
pub open spec fn distinct_keys<V>(s: Seq<(u32, V)>) -> bool {
    forall|i: int, j: int| 0 <= i < j < s.len() ==> s[i].0 != s[j].0
}

/// A key of the sequence is a key of the described map, and conversely.
pub proof fn lemma_map_of_dom<V>(s: Seq<(u32, V)>)
    ensures
        forall|k: u32|
            #[trigger] map_of(s).dom().contains(k) <==> exists|i: int|
                0 <= i < s.len() && s[i].0 == k,
    decreases s.len(),
{
    if s.len() > 0 {
        lemma_map_of_dom(s.drop_last());
        assert forall|k: u32| #[trigger] map_of(s).dom().contains(k) implies exists|i: int|
            0 <= i < s.len() && s[i].0 == k by {
            if k == s.last().0 {
                assert(s[s.len() - 1].0 == k);
            } else {
                assert(map_of(s.drop_last()).dom().contains(k));
                let i = choose|i: int| 0 <= i < s.drop_last().len() && s.drop_last()[i].0 == k;
                assert(s[i].0 == k);
            }
        }
        assert forall|k: u32| (exists|i: int| 0 <= i < s.len() && s[i].0 == k) implies #[trigger]
        map_of(s).dom().contains(k) by {
            let i = choose|i: int| 0 <= i < s.len() && s[i].0 == k;
            if i < s.len() - 1 {
                assert(s.drop_last()[i].0 == k);
                assert(exists|j: int| 0 <= j < s.drop_last().len() && s.drop_last()[j].0 == k);
                assert(map_of(s.drop_last()).dom().contains(k));
            }
        }
    }
}

/// Under distinct keys, each entry is what the described map holds at its key.
pub proof fn lemma_map_of_index<V>(s: Seq<(u32, V)>, i: int)
    requires
        distinct_keys(s),
        0 <= i < s.len(),
    ensures
        map_of(s).dom().contains(s[i].0),
        map_of(s)[s[i].0] == s[i].1,
    decreases s.len(),
{
    if i == s.len() - 1 {
        assert(map_of(s) == map_of(s.drop_last()).insert(s.last().0, s.last().1));
    } else {
        assert(s.drop_last()[i] == s[i]);
        lemma_map_of_index(s.drop_last(), i);
        assert(s[i].0 != s.last().0);
    }
}

/// Replacing the value at one entry updates the described map at that key.
pub proof fn lemma_map_of_update<V>(s: Seq<(u32, V)>, i: int, v: V)
    requires
        distinct_keys(s),
        0 <= i < s.len(),
    ensures
        map_of(s.update(i, (s[i].0, v))) == map_of(s).insert(s[i].0, v),
    decreases s.len(),
{
    let t = s.update(i, (s[i].0, v));
    if i == s.len() - 1 {
        assert(t.drop_last() =~= s.drop_last());
        assert(t.last() == (s[i].0, v));
        assert(map_of(s.drop_last()).insert(s[i].0, v) =~= map_of(s.drop_last()).insert(
            s.last().0,
            s.last().1,
        ).insert(s[i].0, v));
    } else {
        assert(t.drop_last() =~= s.drop_last().update(i, (s[i].0, v)));
        assert(s.drop_last()[i] == s[i]);
        lemma_map_of_update(s.drop_last(), i, v);
        assert(t.last() == s.last());
        assert(s[i].0 != s.last().0);
        assert(map_of(s.drop_last()).insert(s[i].0, v).insert(s.last().0, s.last().1)
            =~= map_of(s.drop_last()).insert(s.last().0, s.last().1).insert(s[i].0, v));
    }
}

/// An association map keyed by entity key.
#[derive(Debug)]
pub struct KeyMap<V> {
    entries: Vec<(u32, V)>,
}

impl<V> View for KeyMap<V> {
    type V = Map<u32, V>;

    closed spec fn view(&self) -> Map<u32, V> {
        map_of(self.entries@)
    }
}

impl<V> KeyMap<V> {
    /// The distinct-key invariant; every operation preserves it.
    pub closed spec fn wf(&self) -> bool {
        distinct_keys(self.entries@)
    }

    /// The keys in insertion order.
    pub closed spec fn key_seq(&self) -> Seq<u32> {
        self.entries@.map_values(|e: (u32, V)| e.0)
    }

    /// The key order holds each key of the map once, and no others.
    pub proof fn lemma_key_seq(&self)
        requires
            self.wf(),
        ensures
            self.key_seq().no_duplicates(),
            forall|k: u32| #[trigger] self.key_seq().contains(k) <==> self@.dom().contains(k),
    {
        lemma_map_of_dom(self.entries@);
        assert forall|k: u32| #[trigger] self.key_seq().contains(k) implies self@.dom().contains(
            k,
        ) by {
            let i = choose|i: int| 0 <= i < self.key_seq().len() && self.key_seq()[i] == k;
            assert(self.entries@[i].0 == k);
        }
        assert forall|k: u32| #[trigger] self@.dom().contains(k) implies self.key_seq().contains(
            k,
        ) by {
            let i = choose|i: int| 0 <= i < self.entries@.len() && self.entries@[i].0 == k;
            assert(self.key_seq()[i] == k);
        }
    }

    pub fn new() -> (r: KeyMap<V>)
        ensures
            r.wf(),
            r@ == Map::<u32, V>::empty(),
            r.key_seq() == Seq::<u32>::empty(),
    {
        KeyMap { entries: Vec::new() }
    }

    pub fn len(&self) -> (r: usize)
        requires
            self.wf(),
        ensures
            r == self.key_seq().len(),
            r == self@.dom().len(),
    {
        proof {
            lemma_map_of_dom(self.entries@);
            assert(self.key_seq().no_duplicates());
            assert forall|k: u32| #[trigger]
                self.key_seq().to_set().contains(k) implies self@.dom().contains(k) by {
                let i = choose|i: int|
                    0 <= i < self.key_seq().len() && self.key_seq()[i] == k;
                assert(self.entries@[i].0 == k);
            }
            assert forall|k: u32| #[trigger] self@.dom().contains(k) implies self.key_seq()
                .to_set()
                .contains(k) by {
                let i = choose|i: int| 0 <= i < self.entries@.len() && self.entries@[i].0 == k;
                assert(self.key_seq()[i] == k);
            }
            assert(self.key_seq().to_set() =~= self@.dom());
            self.key_seq().unique_seq_to_set();
        }
        self.entries.len()
    }

    /// The index of the entry that holds `key`, if one does.
    fn find(&self, key: u32) -> (r: Option<usize>)
        ensures
            match r {
                Some(i) => 0 <= i < self.entries@.len() && self.entries@[i as int].0 == key,
                None => forall|i: int| 0 <= i < self.entries@.len() ==> self.entries@[i].0 != key,
            },
    {
        let n = self.entries.len();
        let mut i: usize = 0;
        while i < n
            invariant
                n == self.entries@.len(),
                0 <= i <= n,
                forall|j: int| 0 <= j < i ==> self.entries@[j].0 != key,
            decreases n - i,
        {
            if self.entries[i].0 == key {
                return Some(i);
            }
            i = i + 1;
        }
        None
    }

    pub fn contains_key(&self, key: u32) -> (r: bool)
        requires
            self.wf(),
        ensures
            r == self@.dom().contains(key),
    {
        proof {
            lemma_map_of_dom(self.entries@);
        }
        self.find(key).is_some()
    }

    pub fn get(&self, key: u32) -> (r: Option<&V>)
        requires
            self.wf(),
        ensures
            match r {
                Some(v) => self@.dom().contains(key) && *v == self@[key],
                None => !self@.dom().contains(key),
            },
    {
        proof {
            lemma_map_of_dom(self.entries@);
        }
        match self.find(key) {
            Some(i) => {
                proof {
                    lemma_map_of_index(self.entries@, i as int);
                }
                Some(&self.entries[i].1)
            },
            None => None,
        }
    }

    /// Bind `key` to `value`; a later bind for the same key wins.
    pub fn insert(&mut self, key: u32, value: V)
        requires
            old(self).wf(),
        ensures
            final(self).wf(),
            final(self)@ == old(self)@.insert(key, value),
            old(self)@.dom().contains(key) ==> final(self).key_seq() == old(self).key_seq(),
            !old(self)@.dom().contains(key) ==> final(self).key_seq() == old(self).key_seq().push(
                key,
            ),
    {
        proof {
            lemma_map_of_dom(self.entries@);
        }
        match self.find(key) {
            Some(i) => {
                proof {
                    lemma_map_of_update(self.entries@, i as int, value);
                }
                self.entries[i] = (key, value);
                proof {
                    assert(self.key_seq() =~= old(self).key_seq());
                }
            },
            None => {
                self.entries.push((key, value));
                proof {
                    assert(self.entries@.drop_last() =~= old(self).entries@);
                    assert(self.key_seq() =~= old(self).key_seq().push(key));
                }
            },
        }
    }

    /// The keys, in the table's stable walk order.
    pub fn keys(&self) -> (r: Vec<u32>)
        requires
            self.wf(),
        ensures
            r@ == self.key_seq(),
            r@.no_duplicates(),
            forall|k: u32| #[trigger] r@.contains(k) <==> self@.dom().contains(k),
    {
        let n = self.entries.len();
        let mut r: Vec<u32> = Vec::new();
        let mut i: usize = 0;
        while i < n
            invariant
                n == self.entries@.len(),
                0 <= i <= n,
                r@ =~= self.entries@.subrange(0, i as int).map_values(|e: (u32, V)| e.0),
            decreases n - i,
        {
            r.push(self.entries[i].0);
            proof {
                assert(self.entries@.subrange(0, i + 1) =~= self.entries@.subrange(
                    0,
                    i as int,
                ).push(self.entries@[i as int]));
            }
            i = i + 1;
        }
        proof {
            assert(self.entries@.subrange(0, n as int) =~= self.entries@);
            lemma_map_of_dom(self.entries@);
            assert forall|k: u32| #[trigger] r@.contains(k) implies self@.dom().contains(k) by {
                let i = choose|i: int| 0 <= i < r@.len() && r@[i] == k;
                assert(self.entries@[i].0 == k);
            }
            assert forall|k: u32| #[trigger] self@.dom().contains(k) implies r@.contains(k) by {
                let i = choose|i: int| 0 <= i < self.entries@.len() && self.entries@[i].0 == k;
                assert(r@[i] == k);
            }
        }
        r
    }
}

} // verus!
