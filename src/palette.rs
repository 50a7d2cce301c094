//! Deduplicating index assignment: each distinct value gets the position at
//! which it was first seen.

use vstd::prelude::*;

verus! {

/// A value that can be held in a palette: two values are the same entry
/// exactly when their views are equal.
pub trait PaletteValue: View + Sized {
    fn same(&self, other: &Self) -> (r: bool)
        ensures
            r == (self@ == other@);
}

impl PaletteValue for String {
    fn same(&self, other: &Self) -> (r: bool) {
        *self == *other
    }
}

/// Position of the first occurrence of `x` in `s` (meaningful when `s` contains `x`).
pub open spec fn first_index<V>(s: Seq<V>, x: V) -> int
    decreases s.len(),
{
    if s.len() == 0 {
        0
    } else if s.drop_last().contains(x) {
        first_index(s.drop_last(), x)
    } else {
        s.len() - 1
    }
}

/// The palette after interning `v`, and the index handed back.
pub open spec fn interned<V>(s: Seq<V>, v: V) -> (Seq<V>, int) {
    if s.contains(v) {
        (s, first_index(s, v))
    } else {
        (s.push(v), s.len() as int)
    }
}

/// The palette after interning each of `vs`, in order, starting from `s`.
pub open spec fn intern_all<V>(s: Seq<V>, vs: Seq<V>) -> Seq<V>
    decreases vs.len(),
{
    if vs.len() == 0 {
        s
    } else {
        interned(intern_all(s, vs.drop_last()), vs.last()).0
    }
}

/// The indices handed back while interning each of `vs`, in order, starting from `s`.
pub open spec fn intern_indices<V>(s: Seq<V>, vs: Seq<V>) -> Seq<int>
    decreases vs.len(),
{
    if vs.len() == 0 {
        Seq::empty()
    } else {
        intern_indices(s, vs.drop_last()).push(interned(intern_all(s, vs.drop_last()), vs.last()).1)
    }
}

/// The distinct values of `vs` in the order in which each first occurs.
pub open spec fn first_seen<V>(vs: Seq<V>) -> Seq<V>
    decreases vs.len(),
{
    if vs.len() == 0 {
        Seq::empty()
    } else if first_seen(vs.drop_last()).contains(vs.last()) {
        first_seen(vs.drop_last())
    } else {
        first_seen(vs.drop_last()).push(vs.last())
    }
}

/// No value occurs twice.
pub open spec fn no_duplicates<V>(s: Seq<V>) -> bool {
    forall|i: int, j: int| 0 <= i < s.len() && 0 <= j < s.len() && i != j ==> s[i] != s[j]
}

proof fn lemma_first_index_at<V>(s: Seq<V>, x: V, i: int)
    requires
        0 <= i < s.len(),
        s[i] == x,
        forall|j: int| 0 <= j < i ==> s[j] != x,
    ensures
        first_index(s, x) == i,
    decreases s.len(),
{
    if i < s.len() - 1 {
        assert(s.drop_last()[i] == x);
        lemma_first_index_at(s.drop_last(), x, i);
    } else {
        assert forall|j: int| 0 <= j < s.drop_last().len() implies s.drop_last()[j] != x by {
            assert(s.drop_last()[j] == s[j]);
        }
    }
}

proof fn lemma_first_index_found<V>(s: Seq<V>, x: V)
    requires
        s.contains(x),
    ensures
        0 <= first_index(s, x) < s.len(),
        s[first_index(s, x)] == x,
    decreases s.len(),
{
    if s.drop_last().contains(x) {
        lemma_first_index_found(s.drop_last(), x);
    } else {
        let i = choose|i: int| 0 <= i < s.len() && s[i] == x;
        if i < s.len() - 1 {
            assert(s.drop_last()[i] == x);
        }
    }
}

proof fn lemma_first_index_push<V>(s: Seq<V>, w: V, x: V)
    requires
        s.contains(x),
    ensures
        first_index(s.push(w), x) == first_index(s, x),
{
    assert(s.push(w).drop_last() =~= s);
}

proof fn lemma_first_seen_contains<V>(vs: Seq<V>, i: int)
    requires
        0 <= i < vs.len(),
    ensures
        first_seen(vs).contains(vs[i]),
    decreases vs.len(),
{
    let fs = first_seen(vs.drop_last());
    if i < vs.len() - 1 {
        lemma_first_seen_contains(vs.drop_last(), i);
        assert(vs.drop_last()[i] == vs[i]);
        if !fs.contains(vs.last()) {
            let k = choose|k: int| 0 <= k < fs.len() && fs[k] == vs[i];
            assert(fs.push(vs.last())[k] == vs[i]);
        }
    } else if !fs.contains(vs.last()) {
        assert(fs.push(vs.last())[fs.len() as int] == vs[i]);
    }
}

/// Interning keeps a palette free of duplicates.
pub proof fn lemma_interned_no_duplicates<V>(s: Seq<V>, v: V)
    requires
        no_duplicates(s),
    ensures
        no_duplicates(interned(s, v).0),
        interned(s, v).0.len() <= s.len() + 1,
        0 <= interned(s, v).1 < interned(s, v).0.len(),
        interned(s, v).0[interned(s, v).1] == v,
{
    if s.contains(v) {
        lemma_first_index_found(s, v);
    } else {
        let t = s.push(v);
        assert forall|i: int, j: int| 0 <= i < t.len() && 0 <= j < t.len() && i != j implies t[i]
            != t[j] by {
            if i < s.len() && j == s.len() {
                assert(s[i] != v);
            } else if j < s.len() && i == s.len() {
                assert(s[j] != v);
            }
        }
    }
}

/// Determinism: interning a sequence of values into an empty palette always
/// yields the same palette and the same indices. The palette is the values
/// in first-seen order, and each value's index is its position there.
pub proof fn lemma_intern_deterministic<V>(vs: Seq<V>)
    ensures
        intern_all(Seq::<V>::empty(), vs) == first_seen(vs),
        intern_indices(Seq::<V>::empty(), vs).len() == vs.len(),
        forall|i: int|
            0 <= i < vs.len() ==> #[trigger] intern_indices(Seq::<V>::empty(), vs)[i]
                == first_index(first_seen(vs), vs[i]),
    decreases vs.len(),
{
    if vs.len() > 0 {
        let e = Seq::<V>::empty();
        let front = vs.drop_last();
        let v = vs.last();
        lemma_intern_deterministic(front);
        let fs = first_seen(front);
        assert forall|i: int| 0 <= i < vs.len() implies #[trigger] intern_indices(e, vs)[i]
            == first_index(first_seen(vs), vs[i]) by {
            if i < vs.len() - 1 {
                assert(intern_indices(e, vs)[i] == intern_indices(e, front)[i]);
                assert(front[i] == vs[i]);
                lemma_first_seen_contains(front, i);
                if !fs.contains(v) {
                    lemma_first_index_push(fs, v, vs[i]);
                }
            } else if !fs.contains(v) {
                assert(fs.push(v).drop_last() =~= fs);
            }
        }
    }
}

/// Interning an equal value a second time neither grows the palette nor
/// changes the index handed back.
pub proof fn lemma_intern_twice<V>(s: Seq<V>, v: V)
    ensures
        interned(interned(s, v).0, v).0 == interned(s, v).0,
        interned(interned(s, v).0, v).1 == interned(s, v).1,
        interned(s, v).0.len() <= s.len() + 1,
{
    if !s.contains(v) {
        let t = s.push(v);
        assert(t[s.len() as int] == v);
        assert(t.drop_last() =~= s);
    }
}

/// An insertion-ordered, duplicate-free table of values.
pub struct Palette<T> {
    pub values: Vec<T>,
}

impl<T: PaletteValue> View for Palette<T> {
    type V = Seq<T::V>;

    open spec fn view(&self) -> Seq<T::V> {
        self.values@.map_values(|t: T| t@)
    }
}

impl<T: PaletteValue> Palette<T> {
    /// An empty palette.
    pub fn new() -> (r: Self)
        ensures
            r@ == Seq::<T::V>::empty(),
    {
        let r = Palette { values: Vec::new() };
        assert(r@ =~= Seq::<T::V>::empty());
        r
    }

    /// Number of distinct values held.
    pub fn len(&self) -> (r: usize)
        ensures
            r == self@.len(),
    {
        self.values.len()
    }

    /// The index of `value`: its existing position if an equal value is
    /// held, else the new last position after appending it.
    pub fn intern(&mut self, value: T) -> (r: usize)
        requires
            old(self)@.len() < usize::MAX,
        ensures
            (final(self)@, r as int) == interned(old(self)@, value@),
            no_duplicates(old(self)@) ==> no_duplicates(final(self)@),
    {
        proof {
            if no_duplicates(self@) {
                lemma_interned_no_duplicates(self@, value@);
            }
        }
        let ghost v = value@;
        let n = self.values.len();
        let mut i: usize = 0;
        while i < n
            invariant
                n == self.values.len(),
                v == value@,
                self@ == old(self)@,
                0 <= i <= n,
                forall|j: int| 0 <= j < i ==> self@[j] != v,
            decreases n - i,
        {
            assert(self@[i as int] == self.values@[i as int]@);
            if self.values[i].same(&value) {
                proof {
                    lemma_first_index_at(self@, v, i as int);
                }
                return i;
            }
            i = i + 1;
        }
        self.values.push(value);
        assert(self@ =~= old(self)@.push(v));
        n
    }
}

} // verus!
