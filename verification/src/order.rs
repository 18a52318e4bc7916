//! Sorting that keeps the order of what ties.

use vstd::prelude::*;

verus! {

broadcast use vstd::seq_lib::group_seq_properties;

/// A type whose values have an order in which values may tie.
pub trait Ordered: Sized {
    /// `self` comes strictly before `other`.
    spec fn before(self, other: Self) -> bool;

    /// Of two values at most one comes before the other.
    proof fn asymmetric(a: Self, b: Self)
        requires
            a.before(b),
        ensures
            !b.before(a),
    ;

    /// What lies between two values comes behind the one or before the other.
    proof fn split(a: Self, b: Self, c: Self)
        requires
            a.before(c),
        ensures
            a.before(b) || b.before(c),
    ;

    /// Whether `self` comes strictly before `other`.
    fn precedes(&self, other: &Self) -> (r: bool)
        ensures
            r == self.before(*other),
    ;
}

/// The two values tie.
pub open spec fn tie<T: Ordered>(a: T, b: T) -> bool {
    !a.before(b) && !b.before(a)
}

/// `s` with `x` put in front of the first element that does not come before it.
pub open spec fn placed<T: Ordered>(s: Seq<T>, x: T) -> Seq<T>
    decreases s.len(),
{
    if s.len() > 0 && s[0].before(x) {
        seq![s[0]] + placed(s.drop_first(), x)
    } else {
        seq![x] + s
    }
}

/// `s` in ascending order; what ties stays in the order of `s`.
pub open spec fn sorted<T: Ordered>(s: Seq<T>) -> Seq<T>
    decreases s.len(),
{
    if s.len() == 0 {
        Seq::empty()
    } else {
        placed(sorted(s.drop_first()), s[0])
    }
}

/// No element comes before an element in front of it.
pub open spec fn is_sorted<T: Ordered>(s: Seq<T>) -> bool {
    forall|i: int, j: int| 0 <= i < j < s.len() ==> !(#[trigger] s[j]).before(#[trigger] s[i])
}

proof fn lemma_placed<T: Ordered>(s: Seq<T>, x: T)
    ensures
        placed(s, x).to_multiset() =~= s.to_multiset().insert(x),
        placed(s, x).len() == s.len() + 1,
        is_sorted(s) ==> is_sorted(placed(s, x)),
    decreases s.len(),
{
    broadcast use vstd::seq_lib::group_to_multiset_ensures;

    if s.len() > 0 && s[0].before(x) {
        let t = s.drop_first();
        lemma_placed(t, x);
        let p = placed(t, x);
        let r = placed(s, x);
        assert(s =~= seq![s[0]] + t);
        vstd::seq_lib::lemma_multiset_commutative(seq![s[0]], t);
        vstd::seq_lib::lemma_multiset_commutative(seq![s[0]], p);
        if is_sorted(s) {
            assert forall|i: int, j: int| 0 <= i < j < t.len() implies !(
            #[trigger] t[j]).before(#[trigger] t[i]) by {
                assert(!s[j + 1].before(s[i + 1]));
            }
            assert forall|i: int, j: int| 0 <= i < j < r.len() implies !(
            #[trigger] r[j]).before(#[trigger] r[i]) by {
                if i > 0 {
                    assert(!p[j - 1].before(p[i - 1]));
                } else {
                    assert(r[j] == p[j - 1]);
                    assert(p.to_multiset().count(p[j - 1]) > 0) by {
                        assert(p.contains(p[j - 1]));
                    }
                    if p[j - 1] == x {
                        T::asymmetric(s[0], x);
                    } else {
                        assert(t.to_multiset().count(p[j - 1]) > 0);
                        assert(t.contains(p[j - 1]));
                        let k = t.index_of(p[j - 1]);
                        assert(s[k + 1] == p[j - 1]);
                        assert(!s[k + 1].before(s[0]));
                    }
                }
            }
        }
    } else {
        let r = placed(s, x);
        vstd::seq_lib::lemma_multiset_commutative(seq![x], s);
        assert(r =~= seq![x] + s);
        if is_sorted(s) {
            assert forall|i: int, j: int| 0 <= i < j < r.len() implies !(
            #[trigger] r[j]).before(#[trigger] r[i]) by {
                if i > 0 {
                    assert(!s[j - 1].before(s[i - 1]));
                } else {
                    if s[j - 1].before(x) {
                        T::split(s[j - 1], s[0], x);
                        if j > 1 {
                            assert(!s[j - 1].before(s[0]));
                        }
                    }
                }
            }
        }
    }
}

/// Sorting gives every element a place, and each element comes before none in front of it.
pub proof fn sorting_orders<T: Ordered>(s: Seq<T>)
    ensures
        is_sorted(sorted(s)),
        sorted(s).to_multiset() =~= s.to_multiset(),
        sorted(s).len() == s.len(),
    decreases s.len(),
{
    broadcast use vstd::seq_lib::group_to_multiset_ensures;

    if s.len() > 0 {
        let t = s.drop_first();
        sorting_orders(t);
        lemma_placed(sorted(t), s[0]);
        assert(s =~= seq![s[0]] + t);
        vstd::seq_lib::lemma_multiset_commutative(seq![s[0]], t);
    }
}

proof fn lemma_placed_image<T: Ordered, U>(s: Seq<T>, x: T, f: spec_fn(T) -> U)
    ensures
        placed(s, x).map_values(f).to_multiset() =~= s.map_values(f).to_multiset().insert(f(x)),
    decreases s.len(),
{
    broadcast use vstd::seq_lib::group_to_multiset_ensures;

    if s.len() > 0 && s[0].before(x) {
        let t = s.drop_first();
        lemma_placed_image(t, x, f);
        let p = placed(t, x).map_values(f);
        assert(placed(s, x).map_values(f) =~= seq![f(s[0])] + p);
        assert(s.map_values(f) =~= seq![f(s[0])] + t.map_values(f));
        vstd::seq_lib::lemma_multiset_commutative(seq![f(s[0])], t.map_values(f));
        vstd::seq_lib::lemma_multiset_commutative(seq![f(s[0])], p);
    } else {
        assert(placed(s, x).map_values(f) =~= seq![f(x)] + s.map_values(f));
        vstd::seq_lib::lemma_multiset_commutative(seq![f(x)], s.map_values(f));
    }
}

/// What is read off the sorted elements is what is read off the elements, in another order.
pub proof fn sorting_keeps_images<T: Ordered, U>(s: Seq<T>, f: spec_fn(T) -> U)
    ensures
        sorted(s).map_values(f).to_multiset() =~= s.map_values(f).to_multiset(),
    decreases s.len(),
{
    broadcast use vstd::seq_lib::group_to_multiset_ensures;

    if s.len() > 0 {
        let t = s.drop_first();
        sorting_keeps_images(t, f);
        lemma_placed_image(sorted(t), s[0], f);
        assert(s.map_values(f) =~= seq![f(s[0])] + t.map_values(f));
        vstd::seq_lib::lemma_multiset_commutative(seq![f(s[0])], t.map_values(f));
    } else {
        assert(sorted(s).map_values(f) =~= s.map_values(f));
    }
}

/// The elements of `s` that tie with `x`.
pub open spec fn ties<T: Ordered>(s: Seq<T>, x: T) -> Seq<T>
    decreases s.len(),
{
    if s.len() == 0 {
        Seq::empty()
    } else if tie(s[0], x) {
        seq![s[0]] + ties(s.drop_first(), x)
    } else {
        ties(s.drop_first(), x)
    }
}

proof fn lemma_ties_placed<T: Ordered>(s: Seq<T>, y: T, x: T)
    ensures
        ties(placed(s, y), x) == if tie(y, x) {
            seq![y] + ties(s, x)
        } else {
            ties(s, x)
        },
    decreases s.len(),
{
    if s.len() > 0 && s[0].before(y) {
        let t = s.drop_first();
        lemma_ties_placed(t, y, x);
        assert(placed(s, y).drop_first() =~= placed(t, y));
        if tie(y, x) {
            T::split(s[0], x, y);
        }
    } else {
        assert(placed(s, y).drop_first() =~= s);
    }
}

/// Sorting keeps the elements that tie in the order that they had.
pub proof fn sorting_is_stable<T: Ordered>(s: Seq<T>, x: T)
    ensures
        ties(sorted(s), x) == ties(s, x),
    decreases s.len(),
{
    if s.len() > 0 {
        sorting_is_stable(s.drop_first(), x);
        lemma_ties_placed(sorted(s.drop_first()), s[0], x);
    }
}

proof fn lemma_place<T: Ordered>(s: Seq<T>, x: T, i: int)
    requires
        0 <= i <= s.len(),
        forall|k: int| 0 <= k < i ==> (#[trigger] s[k]).before(x),
        i < s.len() ==> !s[i].before(x),
    ensures
        placed(s, x) == s.insert(i, x),
    decreases i,
{
    if i > 0 {
        let t = s.drop_first();
        assert(s[0].before(x));
        assert forall|k: int| 0 <= k < i - 1 implies (#[trigger] t[k]).before(x) by {
            assert(s[k + 1].before(x));
        }
        lemma_place(t, x, i - 1);
        assert(seq![s[0]] + t.insert(i - 1, x) =~= s.insert(i, x));
    } else {
        assert(seq![x] + s =~= s.insert(0, x));
    }
}

/// Sorts the elements, and keeps what ties in its order.
pub fn stable_sort<T: Ordered>(items: Vec<T>) -> (r: Vec<T>)
    ensures
        r@ == sorted(items@),
{
    let ghost all = items@;
    let mut rest = items;
    let mut out: Vec<T> = Vec::new();
    assert(all.skip(all.len() as int) =~= Seq::empty());
    while rest.len() > 0
        invariant
            rest.len() <= all.len(),
            rest@ == all.take(rest.len() as int),
            out@ == sorted(all.skip(rest.len() as int)),
        decreases rest.len(),
    {
        let ghost n = rest.len() as int;
        match rest.pop() {
            Some(x) => {
                let mut i: usize = 0;
                while i < out.len() && out[i].precedes(&x)
                    invariant
                        i <= out.len(),
                        forall|k: int| 0 <= k < i ==> (#[trigger] out@[k]).before(x),
                    decreases out.len() - i,
                {
                    i = i + 1;
                }
                proof {
                    lemma_place(out@, x, i as int);
                    assert(all.skip(n - 1).drop_first() =~= all.skip(n));
                    assert(all.skip(n - 1)[0] == x);
                }
                out.insert(i, x);
                assert(rest@ =~= all.take(rest.len() as int));
            },
            None => {},
        }
    }
    assert(all.skip(0) =~= all);
    out
}

/// Each element comes before every later one.
pub open spec fn is_strict<T: Ordered>(s: Seq<T>) -> bool {
    forall|i: int, j: int| 0 <= i < j < s.len() ==> (#[trigger] s[i]).before(#[trigger] s[j])
}

/// There is one strict order of the same elements.
pub proof fn a_strict_order_is_unique<T: Ordered>(a: Seq<T>, b: Seq<T>)
    requires
        is_strict(a),
        is_strict(b),
        a.to_multiset() == b.to_multiset(),
    ensures
        a == b,
    decreases a.len(),
{
    broadcast use vstd::seq_lib::group_to_multiset_ensures;

    assert(a.len() == a.to_multiset().len() && b.len() == b.to_multiset().len());
    if a.len() > 0 {
        assert(a.contains(a[0]) && b.contains(b[0]));
        assert(b.to_multiset().count(a[0]) > 0 && a.to_multiset().count(b[0]) > 0);
        assert(b.contains(a[0]) && a.contains(b[0]));
        let k = b.index_of(a[0]);
        let m = a.index_of(b[0]);
        if k > 0 && m > 0 {
            assert(b[0].before(b[k]));
            assert(a[0].before(a[m]));
            T::asymmetric(a[0], b[0]);
        }
        assert(a[0] == b[0]);
        let c = a.drop_first();
        let d = b.drop_first();
        assert(a =~= seq![a[0]] + c);
        assert(b =~= seq![a[0]] + d);
        vstd::seq_lib::lemma_multiset_commutative(seq![a[0]], c);
        vstd::seq_lib::lemma_multiset_commutative(seq![a[0]], d);
        let one = seq![a[0]].to_multiset();
        assert(c.to_multiset() =~= d.to_multiset()) by {
            assert forall|x: T| c.to_multiset().count(x) == d.to_multiset().count(x) by {
                assert(a.to_multiset().count(x) == one.count(x) + c.to_multiset().count(x));
                assert(b.to_multiset().count(x) == one.count(x) + d.to_multiset().count(x));
            }
        }
        assert forall|i: int, j: int| 0 <= i < j < c.len() implies (#[trigger] c[i]).before(
            #[trigger] c[j],
        ) by {
            assert(a[i + 1].before(a[j + 1]));
        }
        assert forall|i: int, j: int| 0 <= i < j < d.len() implies (#[trigger] d[i]).before(
            #[trigger] d[j],
        ) by {
            assert(b[i + 1].before(b[j + 1]));
        }
        a_strict_order_is_unique(c, d);
    } else {
        assert(a =~= b);
    }
}

} // verus!
