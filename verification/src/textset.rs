//! A set of texts, kept in dictionary order.

use vstd::prelude::*;
use crate::text::{less, lex_asymmetric, lex_irreflexive, lex_lt, lex_total, lex_transitive, same};

verus! {

broadcast use vstd::seq_lib::group_seq_properties;

/// Each text comes before all the texts behind it.
pub open spec fn ascending(s: Seq<Seq<char>>) -> bool {
    forall|i: int, j: int| 0 <= i < j < s.len() ==> lex_lt(#[trigger] s[i], #[trigger] s[j])
}

/// Ascending texts do not repeat.
pub proof fn lemma_ascending_distinct(s: Seq<Seq<char>>)
    requires
        ascending(s),
    ensures
        s.no_duplicates(),
{
    assert forall|i: int, j: int| 0 <= i < s.len() && 0 <= j < s.len() && i != j implies s[i]
        != s[j] by {
        if i < j {
            lex_asymmetric(s[i], s[j]);
        } else {
            lex_asymmetric(s[j], s[i]);
        }
    }
}

/// Two ascending lists of the same texts are one list.
pub proof fn lemma_ascending_unique(a: Seq<Seq<char>>, b: Seq<Seq<char>>)
    requires
        ascending(a),
        ascending(b),
        a.to_set() == b.to_set(),
    ensures
        a == b,
    decreases a.len(),
{
    lemma_ascending_distinct(a);
    lemma_ascending_distinct(b);
    a.unique_seq_to_set();
    b.unique_seq_to_set();
    if a.len() == 0 {
        assert(a =~= b);
    } else {
        let x = a.last();
        let y = b.last();
        assert(b.to_set().contains(x));
        assert(a.to_set().contains(y));
        let i = b.index_of(x);
        let j = a.index_of(y);
        assert(b[i] == x);
        assert(a[j] == y);
        if x != y {
            assert(lex_lt(b[i], b[b.len() - 1]));
            assert(lex_lt(a[j], a[a.len() - 1]));
            lex_asymmetric(x, y);
        }
        let c = a.drop_last();
        let d = b.drop_last();
        assert(c.to_set() =~= d.to_set()) by {
            assert forall|t: Seq<char>| c.to_set().contains(t) == d.to_set().contains(t) by {
                if c.contains(t) {
                    let k = c.index_of(t);
                    assert(a[k] == t);
                    assert(b.to_set().contains(t));
                    let m = b.index_of(t);
                    assert(m < d.len()) by {
                        assert(a[k] != a[a.len() - 1]);
                    }
                    assert(d[m] == t);
                }
                if d.contains(t) {
                    let k = d.index_of(t);
                    assert(b[k] == t);
                    assert(a.to_set().contains(t));
                    let m = a.index_of(t);
                    assert(m < c.len()) by {
                        assert(b[k] != b[b.len() - 1]);
                    }
                    assert(c[m] == t);
                }
            }
        }
        lemma_ascending_unique(c, d);
        assert(a =~= c.push(x));
        assert(b =~= d.push(y));
    }
}

/// A set of texts.
#[derive(Debug, PartialEq, Eq)]
pub struct TextSet {
    items: Vec<String>,
}

impl View for TextSet {
    type V = Set<Seq<char>>;

    open spec fn view(&self) -> Set<Seq<char>> {
        self.elements().to_set()
    }
}

impl TextSet {
    /// The texts of the set, in dictionary order.
    pub closed spec fn elements(&self) -> Seq<Seq<char>> {
        self.items.deep_view()
    }

    #[verifier::type_invariant]
    spec fn kept_ascending(&self) -> bool {
        ascending(self.elements())
    }

    /// The set without texts.
    pub fn new() -> (r: Self)
        ensures
            r.elements() == Seq::<Seq<char>>::empty(),
            r@ == Set::<Seq<char>>::empty(),
    {
        let r = TextSet { items: Vec::new() };
        assert(r.elements() =~= Seq::empty());
        assert(r@ =~= Set::empty());
        r
    }

    /// How many texts the set holds.
    pub fn len(&self) -> (r: usize)
        ensures
            r == self.elements().len(),
            r == self@.len(),
            ascending(self.elements()),
    {
        proof {
            use_type_invariant(self);
            lemma_ascending_distinct(self.elements());
            self.elements().unique_seq_to_set();
        }
        self.items.len()
    }

    /// Whether the set holds no text.
    pub fn is_empty(&self) -> (r: bool)
        ensures
            r == (self.elements().len() == 0),
    {
        self.items.len() == 0
    }

    /// The text at position `i` of the dictionary order.
    pub fn at(&self, i: usize) -> (r: &String)
        requires
            i < self.elements().len(),
        ensures
            r@ == self.elements()[i as int],
    {
        &self.items[i]
    }

    /// Where `s` stands, or would stand, in the dictionary order.
    fn place(&self, s: &str) -> (r: (usize, bool))
        ensures
            r.0 <= self.elements().len(),
            forall|i: int| 0 <= i < r.0 ==> lex_lt(#[trigger] self.elements()[i], s@),
            r.1 ==> r.0 < self.elements().len() && self.elements()[r.0 as int] == s@,
            !r.1 ==> forall|i: int|
                r.0 <= i < self.elements().len() ==> lex_lt(s@, #[trigger] self.elements()[i]),
            r.1 == self@.contains(s@),
    {
        proof {
            use_type_invariant(self);
        }
        let ghost e = self.elements();
        let mut i: usize = 0;
        while i < self.items.len() && less(self.items[i].as_str(), s)
            invariant
                i <= self.items.len(),
                e == self.items.deep_view(),
                forall|k: int| 0 <= k < i ==> lex_lt(#[trigger] e[k], s@),
            decreases self.items.len() - i,
        {
            assert(e[i as int] == self.items@[i as int]@);
            i = i + 1;
        }
        let found = i < self.items.len() && same(self.items[i].as_str(), s);
        proof {
            if i < e.len() {
                assert(e[i as int] == self.items@[i as int]@);
                lex_total(e[i as int], s@);
                if !found {
                    assert forall|k: int| i <= k < e.len() implies lex_lt(s@, #[trigger] e[k]) by {
                        if k > i {
                            assert(lex_lt(e[i as int], e[k]));
                            lex_transitive(s@, e[i as int], e[k]);
                        }
                    }
                }
            }
            if self@.contains(s@) {
                let k = e.index_of(s@);
                assert(e[k] == s@);
                lex_irreflexive(s@);
                assert(found);
            }
            if found {
                assert(e.contains(s@));
            }
        }
        (i, found)
    }

    /// Whether the set holds `s`.
    pub fn contains(&self, s: &str) -> (r: bool)
        ensures
            r == self@.contains(s@),
    {
        self.place(s).1
    }

    /// Puts `s` into the set, and tells whether it was missing.
    pub fn insert(&mut self, s: String) -> (r: bool)
        ensures
            final(self)@ == old(self)@.insert(s@),
            r == !old(self)@.contains(s@),
    {
        let (i, found) = self.place(s.as_str());
        if found {
            assert(self@ =~= old(self)@.insert(s@));
            return false;
        }
        proof {
            use_type_invariant(&*self);
        }
        let ghost e = self.elements();
        let mut items: Vec<String> = Vec::new();
        std::mem::swap(&mut items, &mut self.items);
        let ghost text = s@;
        items.insert(i, s);
        proof {
            let f = items.deep_view();
            assert(f =~= e.insert(i as int, text));
            assert forall|a: int, b: int| 0 <= a < b < f.len() implies lex_lt(
                #[trigger] f[a],
                #[trigger] f[b],
            ) by {
                let a0 = if a < i { a } else { a - 1 };
                let b0 = if b < i { b } else { b - 1 };
                if a != i && b != i {
                    assert(lex_lt(e[a0], e[b0]));
                } else if a == i {
                    assert(lex_lt(text, e[b0]));
                } else {
                    assert(lex_lt(e[a0], text));
                }
            }
            assert(f.to_set() =~= e.to_set().insert(text)) by {
                assert forall|t: Seq<char>| f.contains(t) == (e.contains(t) || t == text) by {
                    if f.contains(t) {
                        let k = f.index_of(t);
                        if k < i {
                            assert(e[k] == t);
                        } else if k > i {
                            assert(e[k - 1] == t);
                        }
                    }
                    if e.contains(t) {
                        let k = e.index_of(t);
                        if k < i {
                            assert(f[k] == t);
                        } else {
                            assert(f[k + 1] == t);
                        }
                    }
                    assert(f[i as int] == text);
                }
            }
        }
        self.items = items;
        true
    }

    /// Takes `s` out of the set, and tells whether it was there.
    pub fn remove(&mut self, s: &str) -> (r: bool)
        ensures
            final(self)@ == old(self)@.remove(s@),
            r == old(self)@.contains(s@),
    {
        let (i, found) = self.place(s);
        if !found {
            assert(self@ =~= old(self)@.remove(s@));
            return false;
        }
        proof {
            use_type_invariant(&*self);
        }
        let ghost e = self.elements();
        let mut items: Vec<String> = Vec::new();
        std::mem::swap(&mut items, &mut self.items);
        items.remove(i);
        proof {
            let f = items.deep_view();
            assert(f =~= e.remove(i as int));
            lemma_ascending_distinct(e);
            assert forall|a: int, b: int| 0 <= a < b < f.len() implies lex_lt(
                #[trigger] f[a],
                #[trigger] f[b],
            ) by {
                let a0 = if a < i { a } else { a + 1 };
                let b0 = if b < i { b } else { b + 1 };
                assert(lex_lt(e[a0], e[b0]));
            }
            assert(f.to_set() =~= e.to_set().remove(s@)) by {
                assert forall|t: Seq<char>| f.contains(t) == (e.contains(t) && t != s@) by {
                    if f.contains(t) {
                        let k = f.index_of(t);
                        if k < i {
                            assert(e[k] == t);
                        } else {
                            assert(e[k + 1] == t);
                        }
                    }
                    if e.contains(t) && t != s@ {
                        let k = e.index_of(t);
                        if k < i {
                            assert(f[k] == t);
                        } else {
                            assert(f[k - 1] == t);
                        }
                    }
                }
            }
        }
        self.items = items;
        true
    }

    /// The texts of the set, in dictionary order.
    pub fn to_vec(&self) -> (r: Vec<String>)
        ensures
            r.deep_view() == self.elements(),
            r.deep_view().to_set() == self@,
            ascending(r.deep_view()),
    {
        proof {
            use_type_invariant(self);
        }
        let mut out: Vec<String> = Vec::new();
        let mut i: usize = 0;
        while i < self.items.len()
            invariant
                i <= self.items.len(),
                out.deep_view() == self.items.deep_view().take(i as int),
            decreases self.items.len() - i,
        {
            let ghost before = out.deep_view();
            out.push(self.items[i].clone());
            assert(out.deep_view() =~= before.push(self.items.deep_view()[i as int]));
            assert(before.push(self.items.deep_view()[i as int]) =~= self.items.deep_view().take(
                i + 1,
            ));
            i = i + 1;
        }
        assert(out.deep_view() =~= self.items.deep_view());
        out
    }

    /// The set of the texts of `v`.
    pub fn of(v: &Vec<String>) -> (r: Self)
        ensures
            r@ == v.deep_view().to_set(),
    {
        let mut out = TextSet::new();
        let mut i: usize = 0;
        assert(v.deep_view().take(0).to_set() =~= Set::<Seq<char>>::empty());
        while i < v.len()
            invariant
                i <= v.len(),
                out@ == v.deep_view().take(i as int).to_set(),
            decreases v.len() - i,
        {
            let ghost upto = v.deep_view().take(i as int);
            out.insert(v[i].clone());
            assert(v.deep_view().take(i + 1) =~= upto.push(v.deep_view()[i as int]));
            assert(upto.push(v.deep_view()[i as int]).to_set() =~= upto.to_set().insert(
                v.deep_view()[i as int],
            ));
            i = i + 1;
        }
        assert(v.deep_view().take(i as int) =~= v.deep_view());
        out
    }
}

impl Clone for TextSet {
    fn clone(&self) -> (r: Self)
        ensures
            r.elements() == self.elements(),
            r@ == self@,
    {
        proof {
            use_type_invariant(self);
        }
        let items = self.to_vec();
        TextSet { items }
    }
}

impl Default for TextSet {
    fn default() -> (r: Self)
        ensures
            r@ == Set::<Seq<char>>::empty(),
    {
        TextSet::new()
    }
}

} // verus!
