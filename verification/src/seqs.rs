//! Filtering of sequences and vectors.

use vstd::prelude::*;

verus! {

/// What filtering does with one element more.
pub proof fn lemma_filter_push<T>(s: Seq<T>, x: T, p: spec_fn(T) -> bool)
    ensures
        s.push(x).filter(p) == (if p(x) {
            s.filter(p).push(x)
        } else {
            s.filter(p)
        }),
{
    reveal(Seq::filter);
    assert(s.push(x).drop_last() =~= s);
}

/// Filtering keeps nothing but elements that satisfy the predicate.
pub proof fn lemma_filter_all<T>(s: Seq<T>, p: spec_fn(T) -> bool)
    ensures
        s.filter(p).len() <= s.len(),
        forall|i: int| 0 <= i < s.filter(p).len() ==> p(#[trigger] s.filter(p)[i]),
        (forall|i: int| 0 <= i < s.len() ==> p(#[trigger] s[i])) ==> s.filter(p) == s,
        s.filter(p).len() == s.len() ==> forall|i: int| 0 <= i < s.len() ==> p(#[trigger] s[i]),
    decreases s.len(),
{
    reveal(Seq::filter);
    if s.len() > 0 {
        lemma_filter_all(s.drop_last(), p);
        assert(s.drop_last().push(s.last()) =~= s);
    }
}

/// What filtering keeps was there before.
pub proof fn lemma_filter_from<T>(s: Seq<T>, p: spec_fn(T) -> bool, i: int)
    requires
        0 <= i < s.filter(p).len(),
    ensures
        s.contains(s.filter(p)[i]),
    decreases s.len(),
{
    reveal(Seq::filter);
    if s.len() > 0 {
        let t = s.drop_last();
        if i < t.filter(p).len() {
            lemma_filter_from(t, p, i);
            let k = choose|k: int| 0 <= k < t.len() && t[k] == t.filter(p)[i];
            assert(s[k] == t.filter(p)[i]);
        } else {
            assert(s[s.len() - 1] == s.filter(p)[i]);
        }
    }
}

/// Filtering after a mapping is mapping after a filtering.
pub proof fn lemma_filter_map<A, B>(
    s: Seq<A>,
    f: spec_fn(A) -> B,
    p: spec_fn(A) -> bool,
    q: spec_fn(B) -> bool,
)
    requires
        forall|i: int| 0 <= i < s.len() ==> p(#[trigger] s[i]) == q(f(s[i])),
    ensures
        s.filter(p).map_values(f) == s.map_values(f).filter(q),
    decreases s.len(),
{
    reveal(Seq::filter);
    if s.len() > 0 {
        let t = s.drop_last();
        lemma_filter_map(t, f, p, q);
        assert(s.map_values(f).drop_last() =~= t.map_values(f));
        assert(s.map_values(f).last() == f(s.last()));
        assert(t.filter(p).push(s.last()).map_values(f) =~= t.filter(p).map_values(f).push(
            f(s.last()),
        ));
    } else {
        assert(s.filter(p).map_values(f) =~= s.map_values(f).filter(q));
    }
}

/// Removes the elements that `keep` rejects.
pub(crate) fn retain<T, F: Fn(&T) -> bool>(v: &mut Vec<T>, keep: F, Ghost(p): Ghost<spec_fn(T) -> bool>)
    requires
        forall|x: &T| #[trigger] keep.requires((x,)),
        forall|x: &T, b: bool| #[trigger] keep.ensures((x,), b) ==> b == p(*x),
    ensures
        final(v)@ == old(v)@.filter(p),
{
    let ghost s = v@;
    let mut i: usize = 0;
    let ghost mut k: int = 0;
    reveal(Seq::filter);
    assert(s.take(0).filter(p) =~= Seq::<T>::empty());
    assert(s.take(0).filter(p) + s.skip(0) =~= v@);
    while i < v.len()
        invariant
            0 <= k <= s.len(),
            i == s.take(k).filter(p).len(),
            v@ == s.take(k).filter(p) + s.skip(k),
            forall|x: &T| #[trigger] keep.requires((x,)),
            forall|x: &T, b: bool| #[trigger] keep.ensures((x,), b) ==> b == p(*x),
        decreases v.len() - i,
    {
        let ghost done = s.take(k).filter(p);
        proof {
            assert(v@[i as int] == s[k]);
            lemma_filter_push(s.take(k), s[k], p);
            assert(s.take(k).push(s[k]) =~= s.take(k + 1));
        }
        if keep(&v[i]) {
            i += 1;
            assert(done.push(s[k]) + s.skip(k + 1) =~= v@);
        } else {
            v.remove(i);
            assert(done + s.skip(k + 1) =~= v@);
        }
        proof {
            k = k + 1;
        }
    }
    assert(k == s.len());
    assert(s.take(k) =~= s);
    assert(v@ =~= s.filter(p));
}

} // verus!
