//! A map from texts to values, kept in dictionary order of its keys.

use vstd::prelude::*;
use crate::text::{less, lex_asymmetric, lex_irreflexive, lex_lt, lex_total, lex_transitive, same};

verus! {

broadcast use vstd::seq_lib::group_seq_properties;

/// Each key comes before all the keys behind it.
pub open spec fn keys_ascending<V>(s: Seq<(Seq<char>, V)>) -> bool {
    forall|i: int, j: int| 0 <= i < j < s.len() ==> lex_lt(#[trigger] s[i].0, #[trigger] s[j].0)
}

/// The map that holds the entries of `s`.
pub open spec fn map_of<V>(s: Seq<(Seq<char>, V)>) -> Map<Seq<char>, V>
    decreases s.len(),
{
    if s.len() == 0 {
        Map::empty()
    } else {
        map_of(s.drop_last()).insert(s.last().0, s.last().1)
    }
}

/// The keys of `map_of` are the keys of the entries.
pub proof fn lemma_map_of_keys<V>(s: Seq<(Seq<char>, V)>, k: Seq<char>)
    ensures
        map_of(s).contains_key(k) <==> exists|i: int| 0 <= i < s.len() && #[trigger] s[i].0 == k,
    decreases s.len(),
{
    if s.len() > 0 {
        let t = s.drop_last();
        lemma_map_of_keys(t, k);
        if map_of(s).contains_key(k) {
            if s.last().0 == k {
                assert(s[s.len() - 1].0 == k);
            } else {
                let i = choose|i: int| 0 <= i < t.len() && #[trigger] t[i].0 == k;
                assert(s[i].0 == k);
            }
        }
        if exists|i: int| 0 <= i < s.len() && #[trigger] s[i].0 == k {
            let i = choose|i: int| 0 <= i < s.len() && #[trigger] s[i].0 == k;
            if i < t.len() {
                assert(t[i].0 == k);
            }
        }
    }
}

/// With distinct keys, `map_of` gives each key the value of its entry.
pub proof fn lemma_map_of_value<V>(s: Seq<(Seq<char>, V)>, i: int)
    requires
        0 <= i < s.len(),
        forall|a: int, b: int|
            0 <= a < b < s.len() ==> #[trigger] s[a].0 != #[trigger] s[b].0,
    ensures
        map_of(s).contains_key(s[i].0),
        map_of(s)[s[i].0] == s[i].1,
    decreases s.len(),
{
    if i < s.len() - 1 {
        let t = s.drop_last();
        assert forall|a: int, b: int| 0 <= a < b < t.len() implies #[trigger] t[a].0
            != #[trigger] t[b].0 by {
            assert(s[a].0 != s[b].0);
        }
        lemma_map_of_value(t, i);
        assert(t[i] == s[i]);
        assert(s[i].0 != s[s.len() - 1].0);
    }
}

/// Ascending keys do not repeat.
pub proof fn lemma_keys_distinct<V>(s: Seq<(Seq<char>, V)>)
    requires
        keys_ascending(s),
    ensures
        forall|a: int, b: int| 0 <= a < b < s.len() ==> #[trigger] s[a].0 != #[trigger] s[b].0,
{
    assert forall|a: int, b: int| 0 <= a < b < s.len() implies #[trigger] s[a].0
        != #[trigger] s[b].0 by {
        lex_asymmetric(s[a].0, s[b].0);
    }
}

/// A map from texts to values.
#[derive(Debug, PartialEq)]
pub struct TextMap<V> {
    pub(crate) items: Vec<(String, V)>,
}

impl<V> View for TextMap<V> {
    type V = Map<Seq<char>, V>;

    open spec fn view(&self) -> Map<Seq<char>, V> {
        map_of(self.entries())
    }
}

impl<V> TextMap<V> {
    /// The entries, in dictionary order of their keys.
    pub closed spec fn entries(&self) -> Seq<(Seq<char>, V)> {
        self.items@.map_values(|e: (String, V)| (e.0@, e.1))
    }

    #[verifier::type_invariant]
    spec fn kept_ascending(&self) -> bool {
        keys_ascending(self.entries())
    }

    /// The entries are what the map keeps.
    pub(crate) proof fn lemma_entries(self)
        ensures
            self.entries() == self.items@.map_values(|e: (String, V)| (e.0@, e.1)),
    {
    }

    /// The map without entries.
    pub fn new() -> (r: Self)
        ensures
            r.entries() == Seq::<(Seq<char>, V)>::empty(),
            r@ == Map::<Seq<char>, V>::empty(),
    {
        let r = TextMap { items: Vec::new() };
        assert(r.entries() =~= Seq::empty());
        r
    }

    /// How many entries the map holds.
    pub fn len(&self) -> (r: usize)
        ensures
            r == self.entries().len(),
            keys_ascending(self.entries()),
    {
        proof {
            use_type_invariant(self);
        }
        self.items.len()
    }

    /// Whether the map holds no entry.
    pub fn is_empty(&self) -> (r: bool)
        ensures
            r == (self.entries().len() == 0),
    {
        self.items.len() == 0
    }

    /// The key of the entry at position `i` of the dictionary order.
    pub fn key_at(&self, i: usize) -> (r: &String)
        requires
            i < self.entries().len(),
        ensures
            r@ == self.entries()[i as int].0,
    {
        &self.items[i].0
    }

    /// The value of the entry at position `i` of the dictionary order.
    pub fn value_at(&self, i: usize) -> (r: &V)
        requires
            i < self.entries().len(),
        ensures
            *r == self.entries()[i as int].1,
    {
        &self.items[i].1
    }

    /// Where `key` stands, or would stand, in the dictionary order.
    pub(crate) fn place(&self, key: &str) -> (r: (usize, bool))
        ensures
            keys_ascending(self.entries()),
            r.0 <= self.entries().len(),
            forall|i: int| 0 <= i < r.0 ==> lex_lt(#[trigger] self.entries()[i].0, key@),
            r.1 ==> r.0 < self.entries().len() && self.entries()[r.0 as int].0 == key@
                && self@.contains_key(key@) && self@[key@] == self.entries()[r.0 as int].1,
            !r.1 ==> forall|i: int|
                r.0 <= i < self.entries().len() ==> lex_lt(key@, #[trigger] self.entries()[i].0),
            !r.1 ==> !self@.contains_key(key@),
    {
        proof {
            use_type_invariant(self);
        }
        let ghost e = self.entries();
        let mut i: usize = 0;
        while i < self.items.len() && less(self.items[i].0.as_str(), key)
            invariant
                i <= self.items.len(),
                e == self.entries(),
                e.len() == self.items.len(),
                forall|k: int| 0 <= k < i ==> lex_lt(#[trigger] e[k].0, key@),
            decreases self.items.len() - i,
        {
            assert(e[i as int].0 == self.items@[i as int].0@);
            i = i + 1;
        }
        let found = i < self.items.len() && same(self.items[i].0.as_str(), key);
        proof {
            if i < e.len() {
                assert(e[i as int].0 == self.items@[i as int].0@);
                lex_total(e[i as int].0, key@);
                if !found {
                    assert forall|k: int| i <= k < e.len() implies lex_lt(
                        key@,
                        #[trigger] e[k].0,
                    ) by {
                        if k > i {
                            assert(lex_lt(e[i as int].0, e[k].0));
                            lex_transitive(key@, e[i as int].0, e[k].0);
                        }
                    }
                }
            }
            lemma_map_of_keys(e, key@);
            lemma_keys_distinct(e);
            if !found && self@.contains_key(key@) {
                let k = choose|k: int| 0 <= k < e.len() && #[trigger] e[k].0 == key@;
                lex_irreflexive(key@);
            }
            if found {
                lemma_map_of_value(e, i as int);
            }
        }
        (i, found)
    }

    /// The value of `key`, if it has one.
    pub fn get(&self, key: &str) -> (r: Option<&V>)
        ensures
            r is Some <==> self@.contains_key(key@),
            r matches Some(v) ==> *v == self@[key@],
    {
        let (i, found) = self.place(key);
        if found {
            Some(&self.items[i].1)
        } else {
            None
        }
    }

    /// Whether `key` has a value.
    pub fn contains_key(&self, key: &str) -> (r: bool)
        ensures
            r == self@.contains_key(key@),
    {
        self.place(key).1
    }

    /// Gives `key` the value `value`, in place of the one that it had.
    #[verifier::rlimit(60)]
    pub fn insert(&mut self, key: String, value: V)
        ensures
            final(self)@ == old(self)@.insert(key@, value),
    {
        let (i, found) = self.place(key.as_str());
        let ghost e = self.entries();
        let ghost k = key@;
        let mut items: Vec<(String, V)> = Vec::new();
        std::mem::swap(&mut items, &mut self.items);
        if found {
            items.set(i, (key, value));
        } else {
            items.insert(i, (key, value));
        }
        proof {
            let f = items@.map_values(|e: (String, V)| (e.0@, e.1));
            if found {
                assert(f =~= e.update(i as int, (k, value)));
                assert forall|a: int, b: int| 0 <= a < b < f.len() implies lex_lt(
                    #[trigger] f[a].0,
                    #[trigger] f[b].0,
                ) by {
                    assert(lex_lt(e[a].0, e[b].0));
                }
            } else {
                assert(f =~= e.insert(i as int, (k, value)));
                assert forall|a: int, b: int| 0 <= a < b < f.len() implies lex_lt(
                    #[trigger] f[a].0,
                    #[trigger] f[b].0,
                ) by {
                    let a0 = if a < i { a } else { a - 1 };
                    let b0 = if b < i { b } else { b - 1 };
                    if a != i && b != i {
                        assert(lex_lt(e[a0].0, e[b0].0));
                    } else if a == i {
                        assert(lex_lt(k, e[b0].0));
                    } else {
                        assert(lex_lt(e[a0].0, k));
                    }
                }
            }
            lemma_keys_distinct(e);
            lemma_keys_distinct(f);
            let g = map_of(f);
            let h = map_of(e).insert(k, value);
            assert(f[i as int].0 == k);
            assert forall|t: Seq<char>| g.dom().contains(t) implies h.dom().contains(t)
                && #[trigger] g[t] == h[t] by {
                lemma_map_of_keys(f, t);
                let m = choose|m: int| 0 <= m < f.len() && #[trigger] f[m].0 == t;
                lemma_map_of_value(f, m);
                if m != i {
                    let m0 = if found || m < i { m } else { m - 1 };
                    assert(e[m0] == f[m]);
                    lemma_map_of_value(e, m0);
                }
            }
            assert forall|t: Seq<char>| #[trigger] h.dom().contains(t) implies g.dom().contains(
                t,
            ) by {
                lemma_map_of_keys(e, t);
                lemma_map_of_keys(f, t);
                if t != k {
                    let m = choose|m: int| 0 <= m < e.len() && #[trigger] e[m].0 == t;
                    let m1 = if found || m < i { m } else { m + 1 };
                    assert(f[m1].0 == t);
                }
            }
            assert forall|t: Seq<char>| #[trigger] g.dom().contains(t) implies h.dom().contains(
                t,
            ) by {
                assert(g[t] == h[t]);
            }
            assert(g =~= h);
        }
        self.items = items;
    }

    /// Takes `key` out of the map, and gives the value that it had.
    pub fn remove(&mut self, key: &str) -> (r: Option<V>)
        ensures
            final(self)@ == old(self)@.remove(key@),
            r is Some <==> old(self)@.contains_key(key@),
            r matches Some(v) ==> v == old(self)@[key@],
    {
        let (i, found) = self.place(key);
        if !found {
            assert(self@ =~= old(self)@.remove(key@));
            return None;
        }
        let ghost e = self.entries();
        let mut items: Vec<(String, V)> = Vec::new();
        std::mem::swap(&mut items, &mut self.items);
        let taken = items.remove(i);
        proof {
            let f = items@.map_values(|e: (String, V)| (e.0@, e.1));
            assert(f =~= e.remove(i as int));
            lemma_keys_distinct(e);
            assert forall|a: int, b: int| 0 <= a < b < f.len() implies lex_lt(
                #[trigger] f[a].0,
                #[trigger] f[b].0,
            ) by {
                let a0 = if a < i { a } else { a + 1 };
                let b0 = if b < i { b } else { b + 1 };
                assert(lex_lt(e[a0].0, e[b0].0));
            }
            lemma_keys_distinct(f);
            let g = map_of(f);
            let h = map_of(e).remove(key@);
            assert forall|t: Seq<char>| #[trigger] g.dom().contains(t) == h.dom().contains(t) by {
                lemma_map_of_keys(f, t);
                lemma_map_of_keys(e, t);
                if g.dom().contains(t) {
                    let m = choose|m: int| 0 <= m < f.len() && #[trigger] f[m].0 == t;
                    let m0 = if m < i { m } else { m + 1 };
                    assert(e[m0].0 == t);
                    assert(e[i as int].0 == key@);
                }
                if h.dom().contains(t) {
                    let m = choose|m: int| 0 <= m < e.len() && #[trigger] e[m].0 == t;
                    let m0 = if m < i { m } else { m - 1 };
                    assert(f[m0].0 == t);
                }
            }
            assert forall|t: Seq<char>| #[trigger] g.dom().contains(t) implies g[t] == h[t] by {
                lemma_map_of_keys(f, t);
                let m = choose|m: int| 0 <= m < f.len() && #[trigger] f[m].0 == t;
                let m0 = if m < i { m } else { m + 1 };
                assert(e[m0] == f[m]);
                lemma_map_of_value(f, m);
                lemma_map_of_value(e, m0);
            }
            assert(g =~= h);
        }
        self.items = items;
        Some(taken.1)
    }

    /// The map of `items`, whose keys are those of `model`.
    pub(crate) fn like(items: Vec<(String, V)>, model: &TextMap<V>) -> (r: Self)
        requires
            items@.len() == model.items@.len(),
            forall|k: int|
                0 <= k < items@.len() ==> (#[trigger] items@[k]).0@ == model.items@[k].0@,
        ensures
            r.items == items,
    {
        proof {
            use_type_invariant(model);
            let f = items@.map_values(|e: (String, V)| (e.0@, e.1));
            assert forall|a: int, b: int| 0 <= a < b < f.len() implies lex_lt(
                #[trigger] f[a].0,
                #[trigger] f[b].0,
            ) by {
                assert(items@[a].0@ == model.items@[a].0@);
                assert(items@[b].0@ == model.items@[b].0@);
                assert(lex_lt(model.entries()[a].0, model.entries()[b].0));
            }
        }
        TextMap { items }
    }

    /// The map of the entries of `v`; of two entries with one key the later counts.
    pub fn of(v: Vec<(String, V)>) -> (r: Self)
        ensures
            r@ == map_of(v@.map_values(|e: (String, V)| (e.0@, e.1))),
    {
        let ghost all = v@.map_values(|e: (String, V)| (e.0@, e.1));
        let mut out = TextMap::new();
        assert(all.take(0) =~= Seq::empty());
        for e in it: v
            invariant
                all == it.seq().map_values(|e: (String, V)| (e.0@, e.1)),
                out@ == map_of(all.take(it.index())),
        {
            let ghost i = it.index();
            proof {
                assert(all[i] == (e.0@, e.1));
                assert(all.take(i + 1).drop_last() =~= all.take(i));
            }
            out.insert(e.0, e.1);
        }
        assert(all.take(all.len() as int) =~= all);
        out
    }
}

impl<V: Clone> Clone for TextMap<V> {
    fn clone(&self) -> (r: Self)
        ensures
            r.entries().len() == self.entries().len(),
            forall|i: int|
                #![trigger r.entries()[i]]
                0 <= i < r.entries().len() ==> r.entries()[i].0 == self.entries()[i].0 && cloned(
                    self.entries()[i].1,
                    r.entries()[i].1,
                ),
    {
        proof {
            use_type_invariant(self);
        }
        let mut items: Vec<(String, V)> = Vec::new();
        let mut i: usize = 0;
        while i < self.items.len()
            invariant
                i <= self.items.len(),
                items.len() == i,
                forall|k: int|
                    #![trigger items@[k]]
                    0 <= k < i ==> items@[k].0@ == self.items@[k].0@ && cloned(
                        self.items@[k].1,
                        items@[k].1,
                    ),
            decreases self.items.len() - i,
        {
            let k = self.items[i].0.clone();
            let v = self.items[i].1.clone();
            items.push((k, v));
            i = i + 1;
        }
        TextMap::like(items, self)
    }
}

impl<V> Default for TextMap<V> {
    fn default() -> (r: Self)
        ensures
            r.entries() == Seq::<(Seq<char>, V)>::empty(),
            r@ == Map::<Seq<char>, V>::empty(),
    {
        TextMap::new()
    }
}

} // verus!
